//! The state of a scrollable region and the operations that move it.

use vstd::prelude::*;
use crate::scrollable::geometry::{Alignment, Direction, Point, Rectangle, Vector, WHOLE};
use crate::scrollable::offset::{
    clamp,
    clamp_relative,
    part_of_range,
    range_of,
    scroll_range,
    lemma_part_of_range_bounds,
    AbsoluteOffset,
    Offset,
    RelativeOffset,
    Viewport,
};

verus! {

/// The distance by which the content of a region is moved along each axis.
#[derive(Clone, Copy, Debug, PartialEq, Eq, Structural)]
pub struct Translation {
    pub x: i64,
    pub y: i64,
}

/// The local state of a scrollable region.
#[derive(Clone, Copy, Debug, PartialEq, Eq, Structural)]
pub struct State {
    /// Where a finger last touched the content, while it pans.
    pub scroll_area_touched_at: Option<Point>,
    pub offset_y: Offset,
    /// Where the handle of the vertical scrollbar is held, in millionths of
    /// its length from its top; `None` while it is not held.
    pub y_scroller_grabbed_at: Option<i64>,
    pub offset_x: Offset,
    /// Where the handle of the horizontal scrollbar is held, in millionths
    /// of its length from its left end; `None` while it is not held.
    pub x_scroller_grabbed_at: Option<i64>,
    /// Whether a shift key is down, which swaps the axes of the wheel.
    pub shift_pressed: bool,
    /// The viewport that was last reported as changed.
    pub last_notified: Option<Viewport>,
}

/// A scroll delta as it acts on the offset: content aligned to the end
/// scrolls the other way round.
pub open spec fn aligned_delta(alignment: Alignment, delta: i32) -> int {
    match alignment {
        Alignment::Start => delta as int,
        Alignment::End => -(delta as int),
    }
}

/// The offset of an axis after scrolling by a delta: the old distance less
/// the aligned delta, held within the scrollable range. An axis that does
/// not scroll, or whose content fits into the viewport, keeps its offset.
pub open spec fn scrolled(
    offset: Offset,
    enabled: bool,
    alignment: Alignment,
    delta: i32,
    viewport: u32,
    content: u32,
) -> Offset {
    if enabled && viewport < content {
        Offset::Absolute(
            clamp(
                offset.spec_absolute(viewport, content) - aligned_delta(alignment, delta),
                0,
                content - viewport,
            ) as i64,
        )
    } else {
        offset
    }
}

/// Whether a stored offset is in its normal form: a distance that is not
/// negative, or a part between the start and the end.
pub open spec fn offset_wf(offset: Offset) -> bool {
    match offset {
        Offset::Absolute(distance) => 0 <= distance,
        Offset::Relative(millionths) => 0 <= millionths <= WHOLE,
    }
}

fn scroll_axis(
    offset: Offset,
    enabled: bool,
    alignment: Alignment,
    delta: i32,
    viewport: u32,
    content: u32,
) -> (next: Offset)
    ensures
        next == scrolled(offset, enabled, alignment, delta, viewport, content),
{
    if enabled && viewport < content {
        let range: i64 = range_of(viewport, content);
        let current: i64 = offset.absolute(viewport, content);
        let aligned: i64 = match alignment {
            Alignment::Start => delta as i64,
            Alignment::End => -(delta as i64),
        };
        let moved: i64 = current - aligned;
        let held: i64 = if moved < 0 {
            0
        } else if moved > range {
            range
        } else {
            moved
        };
        Offset::Absolute(held)
    } else {
        offset
    }
}

impl State {
    /// The state of a region that shows the start of its content and that
    /// nothing holds.
    pub open spec fn initial() -> State {
        State {
            scroll_area_touched_at: None,
            offset_y: Offset::Absolute(0),
            y_scroller_grabbed_at: None,
            offset_x: Offset::Absolute(0),
            x_scroller_grabbed_at: None,
            shift_pressed: false,
            last_notified: None,
        }
    }

    /// Whether both stored offsets are in their normal form.
    pub open spec fn wf(&self) -> bool {
        offset_wf(self.offset_x) && offset_wf(self.offset_y)
    }

    /// Creates a new [`State`] with the scrollbar(s) at the beginning.
    pub fn new() -> (state: State)
        ensures
            state == State::initial(),
            state.wf(),
    {
        State {
            scroll_area_touched_at: None,
            offset_y: Offset::Absolute(0),
            y_scroller_grabbed_at: None,
            offset_x: Offset::Absolute(0),
            x_scroller_grabbed_at: None,
            shift_pressed: false,
            last_notified: None,
        }
    }

    /// The state after scrolling by a delta: each axis along which the
    /// region scrolls moves as [`scrolled`] says.
    pub open spec fn spec_scroll(
        self,
        delta: Vector,
        direction: Direction,
        bounds: Rectangle,
        content_bounds: Rectangle,
    ) -> State {
        State {
            offset_y: scrolled(
                self.offset_y,
                direction.spec_vertical() is Some,
                direction.vertical_alignment(),
                delta.y,
                bounds.height,
                content_bounds.height,
            ),
            offset_x: scrolled(
                self.offset_x,
                direction.spec_horizontal() is Some,
                direction.horizontal_alignment(),
                delta.x,
                bounds.width,
                content_bounds.width,
            ),
            ..self
        }
    }

    /// Apply a scrolling offset to the current [`State`], given the bounds
    /// of the region and its contents.
    pub fn scroll(
        &mut self,
        delta: Vector,
        direction: Direction,
        bounds: Rectangle,
        content_bounds: Rectangle,
    )
        ensures
            *final(self) == old(self).spec_scroll(delta, direction, bounds, content_bounds),
            old(self).wf() ==> final(self).wf(),
    {
        let (scrolls_x, horizontal_alignment) = match direction.horizontal() {
            Some(properties) => (true, properties.alignment),
            None => (false, Alignment::Start),
        };
        let (scrolls_y, vertical_alignment) = match direction.vertical() {
            Some(properties) => (true, properties.alignment),
            None => (false, Alignment::Start),
        };
        self.offset_y = scroll_axis(
            self.offset_y,
            scrolls_y,
            vertical_alignment,
            delta.y,
            bounds.height,
            content_bounds.height,
        );
        self.offset_x = scroll_axis(
            self.offset_x,
            scrolls_x,
            horizontal_alignment,
            delta.x,
            bounds.width,
            content_bounds.width,
        );
    }

    /// The state with both offsets resolved to distances.
    pub open spec fn spec_unsnap(self, bounds: Rectangle, content_bounds: Rectangle) -> State {
        State {
            offset_x: Offset::Absolute(
                self.offset_x.spec_absolute(bounds.width, content_bounds.width) as i64,
            ),
            offset_y: Offset::Absolute(
                self.offset_y.spec_absolute(bounds.height, content_bounds.height) as i64,
            ),
            ..self
        }
    }

    /// Unsnaps the current scroll position, if snapped, given the bounds of
    /// the region and its contents.
    pub fn unsnap(&mut self, bounds: Rectangle, content_bounds: Rectangle)
        ensures
            *final(self) == old(self).spec_unsnap(bounds, content_bounds),
            final(self).wf(),
    {
        self.offset_x = Offset::Absolute(
            self.offset_x.absolute(bounds.width, content_bounds.width),
        );
        self.offset_y = Offset::Absolute(
            self.offset_y.absolute(bounds.height, content_bounds.height),
        );
    }

    /// The state after a scroll to a relative amount along the y axis: the
    /// amount is held between the start and the end, and both offsets are
    /// then resolved to distances.
    pub open spec fn spec_scroll_y_to(
        self,
        percentage: int,
        bounds: Rectangle,
        content_bounds: Rectangle,
    ) -> State {
        (State {
            offset_y: Offset::Relative(clamp(percentage, 0, WHOLE as int) as i64),
            ..self
        }).spec_unsnap(bounds, content_bounds)
    }

    /// As [`State::spec_scroll_y_to`], along the x axis.
    pub open spec fn spec_scroll_x_to(
        self,
        percentage: int,
        bounds: Rectangle,
        content_bounds: Rectangle,
    ) -> State {
        (State {
            offset_x: Offset::Relative(clamp(percentage, 0, WHOLE as int) as i64),
            ..self
        }).spec_unsnap(bounds, content_bounds)
    }

    /// Scrolls the region to a relative amount along the y axis, in
    /// millionths: 0 is the beginning and [`WHOLE`] the end, and what lies
    /// outside is held to them. The position is then resolved to distances,
    /// so that a drag that follows does not jump.
    pub fn scroll_y_to(&mut self, percentage: i64, bounds: Rectangle, content_bounds: Rectangle)
        ensures
            *final(self) == old(self).spec_scroll_y_to(percentage as int, bounds, content_bounds),
            final(self).offset_y == Offset::Absolute(
                part_of_range(
                    scroll_range(bounds.height, content_bounds.height),
                    percentage as int,
                ) as i64,
            ),
            final(self).wf(),
    {
        self.offset_y = Offset::Relative(clamp_relative(percentage));
        self.unsnap(bounds, content_bounds);
    }

    /// Scrolls the region to a relative amount along the x axis, in
    /// millionths, as [`State::scroll_y_to`] does along the y axis.
    pub fn scroll_x_to(&mut self, percentage: i64, bounds: Rectangle, content_bounds: Rectangle)
        ensures
            *final(self) == old(self).spec_scroll_x_to(percentage as int, bounds, content_bounds),
            final(self).offset_x == Offset::Absolute(
                part_of_range(
                    scroll_range(bounds.width, content_bounds.width),
                    percentage as int,
                ) as i64,
            ),
            final(self).wf(),
    {
        self.offset_x = Offset::Relative(clamp_relative(percentage));
        self.unsnap(bounds, content_bounds);
    }

    /// Snaps the scroll position to a [`RelativeOffset`], held between the
    /// start and the end.
    pub fn snap_to(&mut self, offset: RelativeOffset)
        ensures
            *final(self) == (State {
                offset_x: Offset::Relative(clamp(offset.x as int, 0, WHOLE as int) as i64),
                offset_y: Offset::Relative(clamp(offset.y as int, 0, WHOLE as int) as i64),
                ..*old(self)
            }),
            final(self).wf(),
    {
        self.offset_x = Offset::Relative(clamp_relative(offset.x));
        self.offset_y = Offset::Relative(clamp_relative(offset.y));
    }

    /// Scroll to the provided [`AbsoluteOffset`]; a negative distance counts
    /// as 0.
    pub fn scroll_to(&mut self, offset: AbsoluteOffset)
        ensures
            *final(self) == (State {
                offset_x: Offset::Absolute(if offset.x < 0 { 0 } else { offset.x }),
                offset_y: Offset::Absolute(if offset.y < 0 { 0 } else { offset.y }),
                ..*old(self)
            }),
            final(self).wf(),
    {
        self.offset_x = Offset::Absolute(if offset.x < 0 { 0 } else { offset.x });
        self.offset_y = Offset::Absolute(if offset.y < 0 { 0 } else { offset.y });
    }

    /// The distance by which the content is moved along each axis: 0 along
    /// an axis that does not scroll.
    pub open spec fn spec_translation(
        &self,
        direction: Direction,
        bounds: Rectangle,
        content_bounds: Rectangle,
    ) -> Translation {
        Translation {
            x: match direction.spec_horizontal() {
                Some(horizontal) => self.offset_x.spec_translation(
                    bounds.width,
                    content_bounds.width,
                    horizontal.alignment,
                ) as i64,
                None => 0,
            },
            y: match direction.spec_vertical() {
                Some(vertical) => self.offset_y.spec_translation(
                    bounds.height,
                    content_bounds.height,
                    vertical.alignment,
                ) as i64,
                None => 0,
            },
        }
    }

    /// Returns the scrolling translation of the [`State`], given a
    /// [`Direction`], the bounds of the region and its contents.
    #[verifier::when_used_as_spec(spec_translation)]
    pub fn translation(
        &self,
        direction: Direction,
        bounds: Rectangle,
        content_bounds: Rectangle,
    ) -> (translation: Translation)
        ensures
            translation == self.spec_translation(direction, bounds, content_bounds),
            0 <= translation.x <= scroll_range(bounds.width, content_bounds.width),
            0 <= translation.y <= scroll_range(bounds.height, content_bounds.height),
    {
        let x: i64 = match direction.horizontal() {
            Some(horizontal) => self.offset_x.translation(
                bounds.width,
                content_bounds.width,
                horizontal.alignment,
            ),
            None => 0,
        };
        let y: i64 = match direction.vertical() {
            Some(vertical) => self.offset_y.translation(
                bounds.height,
                content_bounds.height,
                vertical.alignment,
            ),
            None => 0,
        };
        Translation { x, y }
    }

    /// Whether a scrollbar's handle is held.
    pub open spec fn spec_scrollers_grabbed(&self) -> bool {
        self.x_scroller_grabbed_at is Some || self.y_scroller_grabbed_at is Some
    }

    /// Returns whether any scroller is currently grabbed or not.
    #[verifier::when_used_as_spec(spec_scrollers_grabbed)]
    pub fn scrollers_grabbed(&self) -> (grabbed: bool)
        ensures
            grabbed == self.spec_scrollers_grabbed(),
    {
        self.x_scroller_grabbed_at.is_some() || self.y_scroller_grabbed_at.is_some()
    }

    /// The viewport of the state within the given bounds.
    pub open spec fn viewport(&self, bounds: Rectangle, content_bounds: Rectangle) -> Viewport {
        Viewport { offset_x: self.offset_x, offset_y: self.offset_y, bounds, content_bounds }
    }
}

impl Default for State {
    fn default() -> (state: State)
        ensures
            state == State::initial(),
    {
        State::new()
    }
}

/// Whether the content fits into the region along both axes, so that there
/// is nothing to scroll.
pub open spec fn content_fits(bounds: Rectangle, content_bounds: Rectangle) -> bool {
    content_bounds.width <= bounds.width && content_bounds.height <= bounds.height
}

/// Whether two viewports show the same: the same distances and the same
/// parts of the range along both axes.
pub open spec fn same_position(a: Viewport, b: Viewport) -> bool {
    &&& a.spec_relative_offset() == b.spec_relative_offset()
    &&& a.spec_absolute_offset() == b.spec_absolute_offset()
}

/// Whether a change of the viewport is to be reported: somebody listens,
/// the content does not fit, and the position differs from the one that was
/// last reported.
pub open spec fn must_notify(
    state: State,
    listening: bool,
    bounds: Rectangle,
    content_bounds: Rectangle,
) -> bool {
    &&& listening
    &&& !content_fits(bounds, content_bounds)
    &&& match state.last_notified {
        Some(last) => !same_position(last, state.viewport(bounds, content_bounds)),
        None => true,
    }
}

/// The state after the decision on a report, and the viewport to report:
/// where a change is to be reported, the viewport of the state, which the
/// state then remembers; otherwise nothing, and the state as it was.
pub open spec fn spec_notify(
    state: State,
    listening: bool,
    bounds: Rectangle,
    content_bounds: Rectangle,
) -> (State, Option<Viewport>) {
    if must_notify(state, listening, bounds, content_bounds) {
        let viewport = state.viewport(bounds, content_bounds);
        (State { last_notified: Some(viewport), ..state }, Some(viewport))
    } else {
        (state, None)
    }
}

/// Decides after an operation whether the viewport has changed. Where it
/// has, the new viewport is returned for the listener and remembered as the
/// one last reported; where it has not, the state stays as it is.
pub fn notify_on_scroll(
    state: &mut State,
    listening: bool,
    bounds: Rectangle,
    content_bounds: Rectangle,
) -> (changed: Option<Viewport>)
    ensures
        (*final(state), changed) == spec_notify(*old(state), listening, bounds, content_bounds),
        changed is Some <==> must_notify(*old(state), listening, bounds, content_bounds),
        old(state).wf() ==> final(state).wf(),
{
    if !listening {
        return None;
    }
    if content_bounds.width <= bounds.width && content_bounds.height <= bounds.height {
        return None;
    }
    let viewport = Viewport {
        offset_x: state.offset_x,
        offset_y: state.offset_y,
        bounds,
        content_bounds,
    };
    if let Some(last_notified) = state.last_notified {
        let last_relative = last_notified.relative_offset();
        let current_relative = viewport.relative_offset();
        let last_absolute = last_notified.absolute_offset();
        let current_absolute = viewport.absolute_offset();
        if last_relative.x == current_relative.x && last_relative.y == current_relative.y
            && last_absolute.x == current_absolute.x && last_absolute.y == current_absolute.y {
            return None;
        }
    }
    state.last_notified = Some(viewport);
    Some(viewport)
}

/// Scrolling never leaves the scrollable range: along an axis that scrolls
/// and whose content is longer than the viewport, the new offset is a
/// distance between 0 and the difference of the two lengths, whatever the
/// delta was.
pub proof fn lemma_scroll_is_clamped(
    offset: Offset,
    alignment: Alignment,
    delta: i32,
    viewport: u32,
    content: u32,
)
    requires
        viewport < content,
    ensures
        scrolled(offset, true, alignment, delta, viewport, content) matches Offset::Absolute(d)
            && 0 <= d <= content - viewport,
        scrolled(offset, true, alignment, delta, viewport, content).spec_absolute(
            viewport,
            content,
        ) == clamp(
            offset.spec_absolute(viewport, content) - aligned_delta(alignment, delta),
            0,
            content - viewport,
        ),
{
}

/// Where the content fits into the region, scrolling changes nothing and
/// no change is reported, whatever the delta and the direction are.
pub proof fn lemma_scroll_noop_when_content_fits(
    state: State,
    delta: Vector,
    direction: Direction,
    listening: bool,
    bounds: Rectangle,
    content_bounds: Rectangle,
)
    requires
        content_fits(bounds, content_bounds),
    ensures
        state.spec_scroll(delta, direction, bounds, content_bounds) == state,
        !must_notify(state, listening, bounds, content_bounds),
        state.viewport(bounds, content_bounds).spec_absolute_offset() == (AbsoluteOffset {
            x: 0,
            y: 0,
        }),
{
    lemma_part_of_range_bounds(0, 0);
    let v = state.viewport(bounds, content_bounds);
    assert(scroll_range(bounds.width, content_bounds.width) == 0);
    assert(scroll_range(bounds.height, content_bounds.height) == 0);
    match state.offset_x {
        Offset::Absolute(_) => {},
        Offset::Relative(p) => {
            lemma_part_of_range_bounds(0, p as int);
        },
    }
    match state.offset_y {
        Offset::Absolute(_) => {},
        Offset::Relative(p) => {
            lemma_part_of_range_bounds(0, p as int);
        },
    }
}

/// A relative position that is resolved and read back as a distance gives
/// that part of the scrollable range: the range times the part, rounded
/// down.
pub proof fn lemma_relative_then_absolute(
    state: State,
    percentage: i64,
    bounds: Rectangle,
    content_bounds: Rectangle,
)
    ensures
        ({
            let snapped = State {
                offset_y: Offset::Relative(clamp(percentage as int, 0, WHOLE as int) as i64),
                ..state
            };
            let resolved = snapped.spec_unsnap(bounds, content_bounds);
            &&& resolved.viewport(bounds, content_bounds).spec_absolute_offset().y
                == part_of_range(
                scroll_range(bounds.height, content_bounds.height),
                percentage as int,
            )
            &&& snapped.viewport(bounds, content_bounds).spec_absolute_offset().y
                == resolved.viewport(bounds, content_bounds).spec_absolute_offset().y
        }),
{
    lemma_part_of_range_bounds(
        scroll_range(bounds.height, content_bounds.height),
        percentage as int,
    );
    lemma_part_of_range_bounds(
        scroll_range(bounds.height, content_bounds.height),
        clamp(percentage as int, 0, WHOLE as int),
    );
}

} // verus!
