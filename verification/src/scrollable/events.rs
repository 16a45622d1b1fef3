//! What an input event does to a scrollable region.
//!
//! The region itself neither draws nor dispatches: the caller hands each
//! event to the content first, with the cursor that [`content_cursor`] gives,
//! and then to [`update`] together with what the content answered.

use vstd::prelude::*;
use crate::scrollable::geometry::{Direction, Point, Rectangle, Vector, WHOLE};
use crate::scrollable::offset::Viewport;
use crate::scrollable::scrollbars::{drag_percentage, scrollbars_of, Scrollbar, Scrollbars};
use crate::scrollable::state::{notify_on_scroll, spec_notify, State};

verus! {

/// The height of a line of the mouse wheel, in pixels.
pub const LINE_HEIGHT: i64 = 60;

/// The number of parts into which a line of the mouse wheel is divided.
pub const LINE_PARTS: i64 = 1000;

/// Whether an event was used.
#[derive(Clone, Copy, Debug, PartialEq, Eq, Structural)]
pub enum Status {
    Ignored,
    Captured,
}

/// The movement of a mouse wheel or of a touchpad.
#[derive(Clone, Copy, Debug, PartialEq, Eq, Structural)]
pub enum ScrollDelta {
    /// A movement in thousandths of a line.
    Lines { x: i32, y: i32 },
    /// A movement in pixels.
    Pixels { x: i32, y: i32 },
}

/// An input event, as far as a scrollable region tells events apart. Button
/// events are those of the left button.
#[derive(Clone, Copy, Debug, PartialEq, Eq, Structural)]
pub enum Event {
    ModifiersChanged { shift: bool },
    WheelScrolled { delta: ScrollDelta },
    FingerPressed,
    FingerMoved,
    FingerLifted,
    FingerLost,
    ButtonPressed,
    ButtonReleased,
    CursorMoved,
    Other,
}

/// What [`update`] asks of its caller.
#[derive(Clone, Copy, Debug, PartialEq, Eq, Structural)]
pub struct Outcome {
    pub status: Status,
    /// The viewport to hand to the listener, where it has changed.
    pub notification: Option<Viewport>,
    /// Whether the content is to be told that the cursor has moved: the
    /// content has moved under a cursor that stands still.
    pub cursor_moved: bool,
}

/// A position within the content.
#[derive(Clone, Copy, Debug, PartialEq, Eq, Structural)]
pub struct ContentPoint {
    pub x: i64,
    pub y: i64,
}

/// The outcome of an event that the region did not use.
pub open spec fn ignored() -> Outcome {
    Outcome { status: Status::Ignored, notification: None, cursor_moved: false }
}

/// The outcome of an event that was used without a change of the viewport.
pub open spec fn captured() -> Outcome {
    Outcome { status: Status::Captured, notification: None, cursor_moved: false }
}

/// A number held in the range of an `i32`.
pub open spec fn saturate(value: int) -> i32 {
    if value < i32::MIN {
        i32::MIN
    } else if value > i32::MAX {
        i32::MAX
    } else {
        value as i32
    }
}

/// The pixels of a number of thousandths of a line, rounded towards 0.
pub open spec fn line_pixels(parts: i32) -> i32 {
    if parts >= 0 {
        (parts * LINE_HEIGHT / LINE_PARTS as int) as i32
    } else {
        (-((-parts) * LINE_HEIGHT / LINE_PARTS as int)) as i32
    }
}

/// The distance that a movement of the wheel scrolls: lines count
/// [`LINE_HEIGHT`] pixels each, and with a shift key down they scroll along
/// the other axis; pixels count as they are.
pub open spec fn wheel_movement(delta: ScrollDelta, shift: bool) -> Vector {
    match delta {
        ScrollDelta::Lines { x, y } => if shift {
            Vector { x: line_pixels(y), y: line_pixels(x) }
        } else {
            Vector { x: line_pixels(x), y: line_pixels(y) }
        },
        ScrollDelta::Pixels { x, y } => Vector { x, y },
    }
}

/// Whether a movement does not move along the one axis of a region that
/// scrolls along one axis only.
pub open spec fn misses_axis(direction: Direction, movement: Vector) -> bool {
    ||| direction is Vertical && movement.y == 0
    ||| direction is Horizontal && movement.x == 0
}

/// The position of the cursor where it lies within the bounds.
pub open spec fn cursor_over(cursor: Option<Point>, bounds: Rectangle) -> Option<Point> {
    match cursor {
        Some(position) => if bounds.spec_contains(position) {
            Some(position)
        } else {
            None
        },
        None => None,
    }
}

/// Whether the event comes from a finger.
pub open spec fn is_touch(event: Event) -> bool {
    event is FingerPressed || event is FingerMoved || event is FingerLifted || event is FingerLost
}

/// Whether the event ends a press: the button is released, or the finger
/// is lifted or lost.
pub open spec fn is_release(event: Event) -> bool {
    event is ButtonReleased || event is FingerLifted || event is FingerLost
}

/// Whether the event moves the pointer.
pub open spec fn is_move(event: Event) -> bool {
    event is CursorMoved || event is FingerMoved
}

/// Whether the event begins a press.
pub open spec fn is_press(event: Event) -> bool {
    event is ButtonPressed || event is FingerPressed
}

/// The way from one point to another.
pub open spec fn way(from: Point, to: Point) -> Vector {
    Vector { x: saturate(to.x - from.x), y: saturate(to.y - from.y) }
}

/// The wheel: over the region it scrolls by its movement, reports a change
/// and uses the event; the content is told of the move unless the cursor is
/// over a scrollbar. Off the region, or without movement along the only
/// axis, the event is not used.
pub open spec fn on_wheel(
    state: State,
    delta: ScrollDelta,
    cursor: Option<Point>,
    direction: Direction,
    listening: bool,
    bounds: Rectangle,
    content_bounds: Rectangle,
) -> (State, Outcome) {
    let movement = wheel_movement(delta, state.shift_pressed);
    let over = scrollbars_of(state, direction, bounds, content_bounds).spec_is_mouse_over(cursor);
    if cursor_over(cursor, bounds) is None || misses_axis(direction, movement) {
        (state, ignored())
    } else {
        let (next, notification) = spec_notify(
            state.spec_scroll(movement, direction, bounds, content_bounds),
            listening,
            bounds,
            content_bounds,
        );
        (next, Outcome { status: Status::Captured, notification, cursor_moved: !over.0 && !over.1 })
    }
}

/// A finger on the content. A press over the region anchors the pan at
/// the cursor; a move scrolls by the way from the anchor to the cursor and
/// anchors anew; lifting or losing the finger ends the pan. A press off the
/// region, and a press or a move of an anchored finger without a cursor, are
/// not used and change nothing.
pub open spec fn on_touch(
    state: State,
    event: Event,
    cursor: Option<Point>,
    direction: Direction,
    listening: bool,
    bounds: Rectangle,
    content_bounds: Rectangle,
) -> (State, Outcome) {
    if event is FingerPressed {
        match cursor_over(cursor, bounds) {
            Some(position) => (
                State { scroll_area_touched_at: Some(position), ..state },
                captured(),
            ),
            None => (state, ignored()),
        }
    } else if event is FingerMoved {
        match (state.scroll_area_touched_at, cursor) {
            (Some(anchor), Some(position)) => {
                let scrolled = state.spec_scroll(
                    way(anchor, position),
                    direction,
                    bounds,
                    content_bounds,
                );
                notified(
                    State { scroll_area_touched_at: Some(position), ..scrolled },
                    listening,
                    bounds,
                    content_bounds,
                )
            },
            (Some(anchor), None) => (state, ignored()),
            (None, _) => (state, captured()),
        }
    } else {
        (State { scroll_area_touched_at: None, ..state }, captured())
    }
}

/// A state after an operation on it, with the report of the change, as the
/// result of an event that was used.
pub open spec fn notified(
    state: State,
    listening: bool,
    bounds: Rectangle,
    content_bounds: Rectangle,
) -> (State, Outcome) {
    let (next, notification) = spec_notify(state, listening, bounds, content_bounds);
    (next, Outcome { status: Status::Captured, notification, cursor_moved: false })
}

/// Whether a finger pans the content: no handle is held, and the finger is
/// over no scrollbar or, unless it is just pressed, a pan is under way.
pub open spec fn pans(state: State, event: Event, over: (bool, bool)) -> bool {
    &&& is_touch(event)
    &&& !state.spec_scrollers_grabbed()
    &&& if event is FingerPressed {
        !over.0 && !over.1
    } else {
        state.scroll_area_touched_at is Some || (!over.0 && !over.1)
    }
}

/// The state with both handles let go.
pub open spec fn let_go(state: State) -> State {
    State { y_scroller_grabbed_at: None, x_scroller_grabbed_at: None, ..state }
}

/// The relative offset that the vertical handle asks for when it is held
/// at `grabbed_at` and the pointer is at `position`.
pub open spec fn percentage_y(scrollbar: Scrollbar, grabbed_at: i64, position: Point) -> int {
    drag_percentage(
        position.y as int,
        scrollbar.bounds.y as int,
        scrollbar.bounds.height as int,
        scrollbar.scroller.bounds.height as int,
        grabbed_at as int,
        scrollbar.alignment,
    )
}

/// The relative offset that the horizontal handle asks for when it is held
/// at `grabbed_at` and the pointer is at `position`.
pub open spec fn percentage_x(scrollbar: Scrollbar, grabbed_at: i64, position: Point) -> int {
    drag_percentage(
        position.x as int,
        scrollbar.bounds.x as int,
        scrollbar.bounds.width as int,
        scrollbar.scroller.bounds.width as int,
        grabbed_at as int,
        scrollbar.alignment,
    )
}

/// Whether a move of the pointer drags: a handle is held whose scrollbar
/// is shown.
pub open spec fn drags(state: State, scrollbars: Scrollbars) -> bool {
    ||| state.y_scroller_grabbed_at is Some && scrollbars.y is Some
    ||| state.x_scroller_grabbed_at is Some && scrollbars.x is Some
}

/// The state after each held handle has followed the pointer: along each
/// axis whose handle is held and whose scrollbar is shown, the region
/// scrolls to the relative offset that the handle asks for.
pub open spec fn dragged(
    state: State,
    scrollbars: Scrollbars,
    position: Point,
    bounds: Rectangle,
    content_bounds: Rectangle,
) -> State {
    let after_y = match (state.y_scroller_grabbed_at, scrollbars.y) {
        (Some(grabbed_at), Some(scrollbar)) => state.spec_scroll_y_to(
            percentage_y(scrollbar, grabbed_at, position),
            bounds,
            content_bounds,
        ),
        _ => state,
    };
    match (state.x_scroller_grabbed_at, scrollbars.x) {
        (Some(grabbed_at), Some(scrollbar)) => after_y.spec_scroll_x_to(
            percentage_x(scrollbar, grabbed_at, position),
            bounds,
            content_bounds,
        ),
        _ => after_y,
    }
}

/// The state after a press at a position takes hold of a handle: of the
/// vertical one where the position is over the vertical scrollbar, else of
/// the horizontal one where it is over the horizontal scrollbar, each only
/// while it is not held. The handle is held where the scrollbar says, the
/// region scrolls to the offset that the handle then asks for, and a pan
/// that was under way is over. `None` where the press takes hold of
/// nothing.
pub open spec fn grabbed(
    state: State,
    scrollbars: Scrollbars,
    position: Point,
    bounds: Rectangle,
    content_bounds: Rectangle,
) -> Option<State> {
    match (state.y_scroller_grabbed_at, scrollbars.y, scrollbars.spec_grab_y_scroller(position)) {
        (None, Some(scrollbar), Some(grip)) => Some(
            State {
                y_scroller_grabbed_at: Some(grip),
                scroll_area_touched_at: None,
                ..state.spec_scroll_y_to(
                    percentage_y(scrollbar, grip, position),
                    bounds,
                    content_bounds,
                )
            },
        ),
        _ => match (
            state.x_scroller_grabbed_at,
            scrollbars.x,
            scrollbars.spec_grab_x_scroller(position),
        ) {
            (None, Some(scrollbar), Some(grip)) => Some(
                State {
                    x_scroller_grabbed_at: Some(grip),
                    scroll_area_touched_at: None,
                    ..state.spec_scroll_x_to(
                        percentage_x(scrollbar, grip, position),
                        bounds,
                        content_bounds,
                    )
                },
            ),
            _ => None,
        },
    }
}

/// The scrollbars, alike for both axes. While a handle is held, a release
/// lets go of both handles and a move drags. A press over the region takes
/// hold of the handle of the scrollbar that it is on. A move or a press
/// without a cursor is not used; what is none of these is not used either.
pub open spec fn on_scrollbars(
    state: State,
    event: Event,
    cursor: Option<Point>,
    scrollbars: Scrollbars,
    listening: bool,
    bounds: Rectangle,
    content_bounds: Rectangle,
) -> (State, Outcome) {
    if state.spec_scrollers_grabbed() && is_release(event) {
        (let_go(state), captured())
    } else if is_move(event) && drags(state, scrollbars) {
        match cursor {
            Some(position) => notified(
                dragged(state, scrollbars, position, bounds, content_bounds),
                listening,
                bounds,
                content_bounds,
            ),
            None => (state, ignored()),
        }
    } else if is_press(event) {
        match cursor_over(cursor, bounds) {
            Some(position) => match grabbed(state, scrollbars, position, bounds, content_bounds) {
                Some(next) => notified(next, listening, bounds, content_bounds),
                None => (state, ignored()),
            },
            None => (state, ignored()),
        }
    } else {
        (state, ignored())
    }
}

/// What an event does to the state of a region, after the content has had
/// the event and answered with `content_status`.
///
/// An event that the content used changes nothing. A change of the modifier
/// keys is remembered and not used. The wheel scrolls. A finger pans the
/// content as [`pans`] says. All other events go to the scrollbars.
pub open spec fn spec_update(
    state: State,
    event: Event,
    content_status: Status,
    cursor: Option<Point>,
    direction: Direction,
    listening: bool,
    bounds: Rectangle,
    content_bounds: Rectangle,
) -> (State, Outcome) {
    let scrollbars = scrollbars_of(state, direction, bounds, content_bounds);
    let over = scrollbars.spec_is_mouse_over(cursor);
    if content_status is Captured {
        (state, captured())
    } else {
        match event {
            Event::ModifiersChanged { shift } => (
                State { shift_pressed: shift, ..state },
                ignored(),
            ),
            Event::WheelScrolled { delta } => on_wheel(
                state,
                delta,
                cursor,
                direction,
                listening,
                bounds,
                content_bounds,
            ),
            _ => if pans(state, event, over) {
                on_touch(state, event, cursor, direction, listening, bounds, content_bounds)
            } else {
                on_scrollbars(state, event, cursor, scrollbars, listening, bounds, content_bounds)
            },
        }
    }
}

fn saturating(value: i64) -> (held: i32)
    ensures
        held == saturate(value as int),
{
    if value < i32::MIN as i64 {
        i32::MIN
    } else if value > i32::MAX as i64 {
        i32::MAX
    } else {
        value as i32
    }
}

fn pixels_of_line(parts: i32) -> (pixels: i32)
    ensures
        pixels == line_pixels(parts),
{
    let parts: i64 = parts as i64;
    if parts >= 0 {
        (parts * LINE_HEIGHT / LINE_PARTS) as i32
    } else {
        (-((-parts) * LINE_HEIGHT / LINE_PARTS)) as i32
    }
}

fn movement_of(delta: ScrollDelta, shift: bool) -> (movement: Vector)
    ensures
        movement == wheel_movement(delta, shift),
{
    match delta {
        ScrollDelta::Lines { x, y } => {
            let along_x: i32 = pixels_of_line(x);
            let along_y: i32 = pixels_of_line(y);
            if shift {
                Vector { x: along_y, y: along_x }
            } else {
                Vector { x: along_x, y: along_y }
            }
        },
        ScrollDelta::Pixels { x, y } => Vector { x, y },
    }
}

fn wheel(
    state: &mut State,
    delta: ScrollDelta,
    cursor: Option<Point>,
    over: (bool, bool),
    direction: Direction,
    listening: bool,
    bounds: Rectangle,
    content_bounds: Rectangle,
) -> (outcome: Outcome)
    requires
        over == scrollbars_of(*old(state), direction, bounds, content_bounds).spec_is_mouse_over(
            cursor,
        ),
    ensures
        (*final(state), outcome) == on_wheel(
            *old(state),
            delta,
            cursor,
            direction,
            listening,
            bounds,
            content_bounds,
        ),
        old(state).wf() ==> final(state).wf(),
{
    let over_region: bool = match cursor {
        Some(position) => bounds.contains(position),
        None => false,
    };
    if !over_region {
        return Outcome { status: Status::Ignored, notification: None, cursor_moved: false };
    }
    let movement = movement_of(delta, state.shift_pressed);
    let misses: bool = match direction {
        Direction::Vertical(_) => movement.y == 0,
        Direction::Horizontal(_) => movement.x == 0,
        Direction::Both { .. } => false,
    };
    if misses {
        return Outcome { status: Status::Ignored, notification: None, cursor_moved: false };
    }
    state.scroll(movement, direction, bounds, content_bounds);
    let notification = notify_on_scroll(state, listening, bounds, content_bounds);
    Outcome { status: Status::Captured, notification, cursor_moved: !over.0 && !over.1 }
}

fn touch(
    state: &mut State,
    event: Event,
    cursor: Option<Point>,
    direction: Direction,
    listening: bool,
    bounds: Rectangle,
    content_bounds: Rectangle,
) -> (outcome: Outcome)
    requires
        is_touch(event),
    ensures
        (*final(state), outcome) == on_touch(
            *old(state),
            event,
            cursor,
            direction,
            listening,
            bounds,
            content_bounds,
        ),
        old(state).wf() ==> final(state).wf(),
{
    match event {
        Event::FingerPressed => match cursor {
            Some(position) => {
                if bounds.contains(position) {
                    state.scroll_area_touched_at = Some(position);
                    Outcome { status: Status::Captured, notification: None, cursor_moved: false }
                } else {
                    Outcome { status: Status::Ignored, notification: None, cursor_moved: false }
                }
            },
            None => Outcome { status: Status::Ignored, notification: None, cursor_moved: false },
        },
        Event::FingerMoved => match state.scroll_area_touched_at {
            Some(anchor) => match cursor {
                Some(position) => {
                    let delta = Vector {
                        x: saturating(position.x as i64 - anchor.x as i64),
                        y: saturating(position.y as i64 - anchor.y as i64),
                    };
                    state.scroll(delta, direction, bounds, content_bounds);
                    state.scroll_area_touched_at = Some(position);
                    let notification = notify_on_scroll(state, listening, bounds, content_bounds);
                    Outcome { status: Status::Captured, notification, cursor_moved: false }
                },
                None => Outcome {
                    status: Status::Ignored,
                    notification: None,
                    cursor_moved: false,
                },
            },
            None => Outcome { status: Status::Captured, notification: None, cursor_moved: false },
        },
        _ => {
            state.scroll_area_touched_at = None;
            Outcome { status: Status::Captured, notification: None, cursor_moved: false }
        },
    }
}

fn releases(event: Event) -> (release: bool)
    ensures
        release == is_release(event),
{
    match event {
        Event::ButtonReleased => true,
        Event::FingerLifted => true,
        Event::FingerLost => true,
        _ => false,
    }
}

fn moves(event: Event) -> (moved: bool)
    ensures
        moved == is_move(event),
{
    match event {
        Event::CursorMoved => true,
        Event::FingerMoved => true,
        _ => false,
    }
}

fn presses(event: Event) -> (pressed: bool)
    ensures
        pressed == is_press(event),
{
    match event {
        Event::ButtonPressed => true,
        Event::FingerPressed => true,
        _ => false,
    }
}

fn touches(event: Event) -> (touched: bool)
    ensures
        touched == is_touch(event),
{
    match event {
        Event::FingerPressed => true,
        Event::FingerMoved => true,
        Event::FingerLifted => true,
        Event::FingerLost => true,
        _ => false,
    }
}

/// A relative offset held between the start and the end.
fn held(percentage: i128) -> (held: i64)
    ensures
        held == crate::scrollable::offset::clamp(percentage as int, 0, WHOLE as int),
{
    if percentage < 0 {
        0
    } else if percentage > WHOLE as i128 {
        WHOLE
    } else {
        percentage as i64
    }
}

fn drag(
    state: &mut State,
    scrollbars: Scrollbars,
    position: Point,
    bounds: Rectangle,
    content_bounds: Rectangle,
)
    ensures
        *final(state) == dragged(*old(state), scrollbars, position, bounds, content_bounds),
        old(state).wf() ==> final(state).wf(),
{
    if let (Some(grabbed_at), Some(scrollbar)) = (state.y_scroller_grabbed_at, scrollbars.y) {
        let percentage = scrollbar.scroll_percentage_y(grabbed_at, position);
        state.scroll_y_to(held(percentage), bounds, content_bounds);
    }
    if let (Some(grabbed_at), Some(scrollbar)) = (state.x_scroller_grabbed_at, scrollbars.x) {
        let percentage = scrollbar.scroll_percentage_x(grabbed_at, position);
        state.scroll_x_to(held(percentage), bounds, content_bounds);
    }
}

fn grab(
    state: &mut State,
    scrollbars: Scrollbars,
    position: Point,
    bounds: Rectangle,
    content_bounds: Rectangle,
) -> (took: bool)
    ensures
        match grabbed(*old(state), scrollbars, position, bounds, content_bounds) {
            Some(next) => took && *final(state) == next,
            None => !took && *final(state) == *old(state),
        },
        old(state).wf() ==> final(state).wf(),
{
    if state.y_scroller_grabbed_at.is_none() {
        if let (Some(grip), Some(scrollbar)) = (
            scrollbars.grab_y_scroller(position),
            scrollbars.y,
        ) {
            let percentage = scrollbar.scroll_percentage_y(grip, position);
            state.scroll_y_to(held(percentage), bounds, content_bounds);
            state.y_scroller_grabbed_at = Some(grip);
            state.scroll_area_touched_at = None;
            return true;
        }
    }
    if state.x_scroller_grabbed_at.is_none() {
        if let (Some(grip), Some(scrollbar)) = (
            scrollbars.grab_x_scroller(position),
            scrollbars.x,
        ) {
            let percentage = scrollbar.scroll_percentage_x(grip, position);
            state.scroll_x_to(held(percentage), bounds, content_bounds);
            state.x_scroller_grabbed_at = Some(grip);
            state.scroll_area_touched_at = None;
            return true;
        }
    }
    false
}

fn scrollbars_event(
    state: &mut State,
    event: Event,
    cursor: Option<Point>,
    scrollbars: Scrollbars,
    listening: bool,
    bounds: Rectangle,
    content_bounds: Rectangle,
) -> (outcome: Outcome)
    ensures
        (*final(state), outcome) == on_scrollbars(
            *old(state),
            event,
            cursor,
            scrollbars,
            listening,
            bounds,
            content_bounds,
        ),
        old(state).wf() ==> final(state).wf(),
{
    if state.scrollers_grabbed() && releases(event) {
        state.y_scroller_grabbed_at = None;
        state.x_scroller_grabbed_at = None;
        return Outcome { status: Status::Captured, notification: None, cursor_moved: false };
    }
    let drags: bool = (state.y_scroller_grabbed_at.is_some() && scrollbars.y.is_some()) || (
    state.x_scroller_grabbed_at.is_some() && scrollbars.x.is_some());
    if moves(event) && drags {
        let Some(position) = cursor else {
            return Outcome { status: Status::Ignored, notification: None, cursor_moved: false };
        };
        drag(state, scrollbars, position, bounds, content_bounds);
        let notification = notify_on_scroll(state, listening, bounds, content_bounds);
        return Outcome { status: Status::Captured, notification, cursor_moved: false };
    }
    if presses(event) {
        if let Some(position) = cursor {
            if bounds.contains(position) {
                if grab(state, scrollbars, position, bounds, content_bounds) {
                    let notification = notify_on_scroll(state, listening, bounds, content_bounds);
                    return Outcome { status: Status::Captured, notification, cursor_moved: false };
                }
            }
        }
    }
    Outcome { status: Status::Ignored, notification: None, cursor_moved: false }
}

fn panning(state: &State, event: Event, over: (bool, bool)) -> (panning: bool)
    ensures
        panning == pans(*state, event, over),
{
    if !touches(event) || state.scrollers_grabbed() {
        return false;
    }
    let off_the_bars: bool = !over.0 && !over.1;
    match event {
        Event::FingerPressed => off_the_bars,
        _ => state.scroll_area_touched_at.is_some() || off_the_bars,
    }
}

/// Processes an event and updates the [`State`] of a scrollable region
/// accordingly, after the content has had the event. `listening` says
/// whether anybody wants to hear of a changed viewport.
pub fn update(
    state: &mut State,
    event: Event,
    content_status: Status,
    cursor: Option<Point>,
    direction: Direction,
    listening: bool,
    bounds: Rectangle,
    content_bounds: Rectangle,
) -> (outcome: Outcome)
    ensures
        (*final(state), outcome) == spec_update(
            *old(state),
            event,
            content_status,
            cursor,
            direction,
            listening,
            bounds,
            content_bounds,
        ),
        old(state).wf() ==> final(state).wf(),
{
    let scrollbars = Scrollbars::new(state, direction, bounds, content_bounds);
    let over = scrollbars.is_mouse_over(cursor);
    if let Status::Captured = content_status {
        return Outcome { status: Status::Captured, notification: None, cursor_moved: false };
    }
    if let Event::ModifiersChanged { shift } = event {
        state.shift_pressed = shift;
        return Outcome { status: Status::Ignored, notification: None, cursor_moved: false };
    }
    if let Event::WheelScrolled { delta } = event {
        return wheel(state, delta, cursor, over, direction, listening, bounds, content_bounds);
    }
    if panning(state, event, over) {
        return touch(state, event, cursor, direction, listening, bounds, content_bounds);
    }
    scrollbars_event(state, event, cursor, scrollbars, listening, bounds, content_bounds)
}

/// Where the content fits into the region, no event moves it and no change
/// is reported, whatever the event, the cursor and the direction are.
pub proof fn lemma_update_when_content_fits(
    state: State,
    event: Event,
    content_status: Status,
    cursor: Option<Point>,
    direction: Direction,
    listening: bool,
    bounds: Rectangle,
    content_bounds: Rectangle,
)
    requires
        crate::scrollable::state::content_fits(bounds, content_bounds),
    ensures
        ({
            let (next, outcome) = spec_update(
                state,
                event,
                content_status,
                cursor,
                direction,
                listening,
                bounds,
                content_bounds,
            );
            &&& outcome.notification is None
            &&& next.offset_x == state.offset_x
            &&& next.offset_y == state.offset_y
            &&& next.last_notified == state.last_notified
        }),
{
    let scrollbars = scrollbars_of(state, direction, bounds, content_bounds);
    assert(scrollbars.y is None && scrollbars.x is None);
}

/// An event that the content has used leaves the region as it was.
pub proof fn lemma_content_comes_first(
    state: State,
    event: Event,
    cursor: Option<Point>,
    direction: Direction,
    listening: bool,
    bounds: Rectangle,
    content_bounds: Rectangle,
)
    ensures
        spec_update(
            state,
            event,
            Status::Captured,
            cursor,
            direction,
            listening,
            bounds,
            content_bounds,
        ) == (state, captured()),
{
}

/// Whatever is held is let go when the button is released or the finger is
/// lifted or lost, wherever the cursor is: the event is used, no handle is
/// held afterwards, and nothing else changes, so that nothing scrolls and
/// no change is reported.
pub proof fn lemma_release_lets_go(
    state: State,
    event: Event,
    cursor: Option<Point>,
    direction: Direction,
    listening: bool,
    bounds: Rectangle,
    content_bounds: Rectangle,
)
    requires
        state.spec_scrollers_grabbed(),
        is_release(event),
    ensures
        spec_update(
            state,
            event,
            Status::Ignored,
            cursor,
            direction,
            listening,
            bounds,
            content_bounds,
        ) == (let_go(state), captured()),
        !let_go(state).spec_scrollers_grabbed(),
        let_go(state).offset_x == state.offset_x,
        let_go(state).offset_y == state.offset_y,
{
}

/// A press off the region does nothing: the button or the finger that goes
/// down where the cursor is not over the region, or where there is no
/// cursor, leaves the state as it was and is not used.
pub proof fn lemma_press_off_the_region(
    state: State,
    event: Event,
    cursor: Option<Point>,
    direction: Direction,
    listening: bool,
    bounds: Rectangle,
    content_bounds: Rectangle,
)
    requires
        is_press(event),
        cursor_over(cursor, bounds) is None,
    ensures
        spec_update(
            state,
            event,
            Status::Ignored,
            cursor,
            direction,
            listening,
            bounds,
            content_bounds,
        ) == (state, ignored()),
{
}

proof fn lemma_touch_anchors(
    state: State,
    event: Event,
    cursor: Option<Point>,
    direction: Direction,
    listening: bool,
    bounds: Rectangle,
    content_bounds: Rectangle,
)
    ensures
        ({
            let next = on_touch(
                state,
                event,
                cursor,
                direction,
                listening,
                bounds,
                content_bounds,
            ).0;
            next.scroll_area_touched_at != state.scroll_area_touched_at
                && next.scroll_area_touched_at is Some ==> {
                &&& cursor == next.scroll_area_touched_at
                &&& state.scroll_area_touched_at is None ==> event is FingerPressed && cursor_over(
                    cursor,
                    bounds,
                ) is Some
            }
        }),
{
}

proof fn lemma_others_keep_anchor(
    state: State,
    event: Event,
    delta: ScrollDelta,
    cursor: Option<Point>,
    direction: Direction,
    listening: bool,
    bounds: Rectangle,
    content_bounds: Rectangle,
)
    ensures
        on_wheel(
            state,
            delta,
            cursor,
            direction,
            listening,
            bounds,
            content_bounds,
        ).0.scroll_area_touched_at == state.scroll_area_touched_at,
        ({
            let next = on_scrollbars(
                state,
                event,
                cursor,
                scrollbars_of(state, direction, bounds, content_bounds),
                listening,
                bounds,
                content_bounds,
            ).0;
            next.scroll_area_touched_at == state.scroll_area_touched_at
                || next.scroll_area_touched_at is None
        }),
{
}

/// A pan is anchored only over the content: where an event leaves another
/// anchor than it found, the cursor is at the new anchor, and unless the
/// pan was under way the finger was pressed over the region and over no
/// scrollbar while no handle was held.
pub proof fn lemma_anchor_over_content(
    state: State,
    event: Event,
    content_status: Status,
    cursor: Option<Point>,
    direction: Direction,
    listening: bool,
    bounds: Rectangle,
    content_bounds: Rectangle,
)
    ensures
        ({
            let next = spec_update(
                state,
                event,
                content_status,
                cursor,
                direction,
                listening,
                bounds,
                content_bounds,
            ).0;
            let over = scrollbars_of(state, direction, bounds, content_bounds).spec_is_mouse_over(
                cursor,
            );
            next.scroll_area_touched_at != state.scroll_area_touched_at
                && next.scroll_area_touched_at is Some ==> {
                &&& cursor == next.scroll_area_touched_at
                &&& !state.spec_scrollers_grabbed()
                &&& state.scroll_area_touched_at is None ==> {
                    &&& event is FingerPressed
                    &&& cursor_over(cursor, bounds) is Some
                    &&& !over.0 && !over.1
                }
            }
        }),
{
    lemma_touch_anchors(state, event, cursor, direction, listening, bounds, content_bounds);
    match event {
        Event::WheelScrolled { delta } => {
            lemma_others_keep_anchor(
                state,
                event,
                delta,
                cursor,
                direction,
                listening,
                bounds,
                content_bounds,
            );
        },
        _ => {
            lemma_others_keep_anchor(
                state,
                event,
                ScrollDelta::Pixels { x: 0, y: 0 },
                cursor,
                direction,
                listening,
                bounds,
                content_bounds,
            );
        },
    }
}

/// A move of the pointer while a handle is held drags it, for mouse and
/// finger alike and wherever the pointer is: the region scrolls to what
/// the held handles ask for, and the handles stay held as they were.
pub proof fn lemma_held_handle_follows(
    state: State,
    event: Event,
    position: Point,
    direction: Direction,
    listening: bool,
    bounds: Rectangle,
    content_bounds: Rectangle,
)
    requires
        is_move(event),
        drags(state, scrollbars_of(state, direction, bounds, content_bounds)),
    ensures
        ({
            let scrollbars = scrollbars_of(state, direction, bounds, content_bounds);
            let (next, outcome) = spec_update(
                state,
                event,
                Status::Ignored,
                Some(position),
                direction,
                listening,
                bounds,
                content_bounds,
            );
            &&& (next, outcome) == notified(
                dragged(state, scrollbars, position, bounds, content_bounds),
                listening,
                bounds,
                content_bounds,
            )
            &&& outcome.status is Captured
            &&& next.y_scroller_grabbed_at == state.y_scroller_grabbed_at
            &&& next.x_scroller_grabbed_at == state.x_scroller_grabbed_at
        }),
{
}

/// No point is over both scrollbars.
pub proof fn lemma_scrollbars_apart(
    state: State,
    direction: Direction,
    position: Point,
    bounds: Rectangle,
    content_bounds: Rectangle,
)
    ensures
        ({
            let over = scrollbars_of(state, direction, bounds, content_bounds).spec_is_mouse_over(
                Some(position),
            );
            !(over.0 && over.1)
        }),
{
}

/// Whether an outcome reports rightly: a change is reported only where
/// the content does not fit and somebody listens, and what is reported is
/// the viewport of the state after the event, which the state remembers.
pub open spec fn reports_rightly(
    result: (State, Outcome),
    listening: bool,
    bounds: Rectangle,
    content_bounds: Rectangle,
) -> bool {
    result.1.notification matches Some(viewport) ==> {
        &&& listening
        &&& !crate::scrollable::state::content_fits(bounds, content_bounds)
        &&& result.0.last_notified == Some(viewport)
        &&& viewport == result.0.viewport(bounds, content_bounds)
        &&& result.1.status is Captured
    }
}

proof fn lemma_notified_reports(
    state: State,
    listening: bool,
    bounds: Rectangle,
    content_bounds: Rectangle,
)
    ensures
        reports_rightly(
            notified(state, listening, bounds, content_bounds),
            listening,
            bounds,
            content_bounds,
        ),
{
}

proof fn lemma_scrollbars_report(
    state: State,
    event: Event,
    cursor: Option<Point>,
    scrollbars: Scrollbars,
    listening: bool,
    bounds: Rectangle,
    content_bounds: Rectangle,
)
    ensures
        reports_rightly(
            on_scrollbars(state, event, cursor, scrollbars, listening, bounds, content_bounds),
            listening,
            bounds,
            content_bounds,
        ),
{
    match cursor {
        Some(position) => {
            lemma_notified_reports(
                dragged(state, scrollbars, position, bounds, content_bounds),
                listening,
                bounds,
                content_bounds,
            );
            match grabbed(state, scrollbars, position, bounds, content_bounds) {
                Some(next) => {
                    lemma_notified_reports(next, listening, bounds, content_bounds);
                },
                None => {},
            }
        },
        None => {},
    }
}

proof fn lemma_pointer_reports(
    state: State,
    event: Event,
    delta: ScrollDelta,
    cursor: Option<Point>,
    direction: Direction,
    listening: bool,
    bounds: Rectangle,
    content_bounds: Rectangle,
)
    ensures
        reports_rightly(
            on_wheel(state, delta, cursor, direction, listening, bounds, content_bounds),
            listening,
            bounds,
            content_bounds,
        ),
        reports_rightly(
            on_touch(state, event, cursor, direction, listening, bounds, content_bounds),
            listening,
            bounds,
            content_bounds,
        ),
{
}

/// Every event reports rightly.
pub proof fn lemma_reports_are_remembered(
    state: State,
    event: Event,
    content_status: Status,
    cursor: Option<Point>,
    direction: Direction,
    listening: bool,
    bounds: Rectangle,
    content_bounds: Rectangle,
)
    ensures
        reports_rightly(
            spec_update(
                state,
                event,
                content_status,
                cursor,
                direction,
                listening,
                bounds,
                content_bounds,
            ),
            listening,
            bounds,
            content_bounds,
        ),
{
    let scrollbars = scrollbars_of(state, direction, bounds, content_bounds);
    lemma_scrollbars_report(state, event, cursor, scrollbars, listening, bounds, content_bounds);
    match event {
        Event::WheelScrolled { delta } => {
            lemma_pointer_reports(
                state,
                event,
                delta,
                cursor,
                direction,
                listening,
                bounds,
                content_bounds,
            );
        },
        _ => {
            lemma_pointer_reports(
                state,
                event,
                ScrollDelta::Pixels { x: 0, y: 0 },
                cursor,
                direction,
                listening,
                bounds,
                content_bounds,
            );
        },
    }
}

} // verus!
