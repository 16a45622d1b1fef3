//! The geometry of the scrollbars of a region, hit-testing, and the offset
//! that a drag of a handle asks for.

use vstd::prelude::*;
use crate::scrollable::geometry::{
    Alignment,
    Direction,
    Frame,
    Point,
    Properties,
    Rectangle,
    HALF,
    MIN_SCROLLER_LENGTH,
    WHOLE,
};
use crate::scrollable::state::State;

verus! {

/// The handle of a [`Scrollbar`].
#[derive(Clone, Copy, Debug, PartialEq, Eq, Structural)]
pub struct Scroller {
    /// The bounds of the [`Scroller`].
    pub bounds: Frame,
}

/// One scrollbar of a region.
#[derive(Clone, Copy, Debug, PartialEq, Eq, Structural)]
pub struct Scrollbar {
    /// The track with its margin and the room for the handle: the area in
    /// which the pointer counts as being over the scrollbar.
    pub total_bounds: Frame,
    /// The track.
    pub bounds: Frame,
    pub scroller: Scroller,
    pub alignment: Alignment,
}

/// State of both [`Scrollbar`]s.
#[derive(Clone, Copy, Debug, PartialEq, Eq, Structural)]
pub struct Scrollbars {
    pub y: Option<Scrollbar>,
    pub x: Option<Scrollbar>,
}

/// A scrollbar along its own axis: where it starts and how long it is
/// ("along"), and where its parts lie in the other direction ("across").
pub struct Bar {
    pub total_across: int,
    pub total_thickness: int,
    pub track_across: int,
    pub scroller_across: int,
    pub along: int,
    pub length: int,
    pub scroller_along: int,
    pub scroller_length: int,
}

/// The greater of two numbers.
pub open spec fn max(a: int, b: int) -> int {
    if a >= b {
        a
    } else {
        b
    }
}

/// The layout of a scrollbar.
///
/// The scrollbar lies at the far edge of the region and takes the thickness
/// of the wider of track and handle, with the margin on both sides; track
/// and handle are centred in it. Its length is that of the viewport less
/// the room `reserved` for the other scrollbar. The handle is as long as
/// the part of the content that the viewport shows, but at least
/// [`MIN_SCROLLER_LENGTH`], and lies as far along the track as the content
/// is moved along its length; it never starts before the origin.
pub open spec fn bar_layout(
    properties: Properties,
    far_edge: int,
    start: int,
    viewport: u32,
    content: u32,
    reserved: int,
    translation: int,
) -> Bar {
    let total_thickness = properties.thickness() + 2 * properties.margin;
    let length = max(viewport - reserved, 0);
    Bar {
        total_across: far_edge - total_thickness,
        total_thickness,
        track_across: far_edge - total_thickness / 2 - properties.width / 2,
        scroller_across: far_edge - total_thickness / 2 - properties.scroller_width / 2,
        along: start,
        length,
        scroller_along: max(start + translation * length / (content as int), 0),
        scroller_length: max(length * viewport / (content as int), MIN_SCROLLER_LENGTH as int),
    }
}

/// The vertical scrollbar of a layout: "along" is the y axis.
pub open spec fn vertical_bar(bar: Bar, properties: Properties) -> Scrollbar {
    Scrollbar {
        total_bounds: Frame {
            x: bar.total_across as i64,
            y: bar.along as i64,
            width: bar.total_thickness as i64,
            height: bar.length as i64,
        },
        bounds: Frame {
            x: bar.track_across as i64,
            y: bar.along as i64,
            width: properties.width as i64,
            height: bar.length as i64,
        },
        scroller: Scroller {
            bounds: Frame {
                x: bar.scroller_across as i64,
                y: bar.scroller_along as i64,
                width: properties.scroller_width as i64,
                height: bar.scroller_length as i64,
            },
        },
        alignment: properties.alignment,
    }
}

/// The horizontal scrollbar of a layout: "along" is the x axis.
pub open spec fn horizontal_bar(bar: Bar, properties: Properties) -> Scrollbar {
    Scrollbar {
        total_bounds: Frame {
            x: bar.along as i64,
            y: bar.total_across as i64,
            width: bar.length as i64,
            height: bar.total_thickness as i64,
        },
        bounds: Frame {
            x: bar.along as i64,
            y: bar.track_across as i64,
            width: bar.length as i64,
            height: properties.width as i64,
        },
        scroller: Scroller {
            bounds: Frame {
                x: bar.scroller_along as i64,
                y: bar.scroller_across as i64,
                width: bar.scroller_length as i64,
                height: properties.scroller_width as i64,
            },
        },
        alignment: properties.alignment,
    }
}

/// The properties of the horizontal scrollbar where it is shown: the region
/// scrolls horizontally and the content is wider than the region.
pub open spec fn shown_horizontal(
    direction: Direction,
    bounds: Rectangle,
    content_bounds: Rectangle,
) -> Option<Properties> {
    if content_bounds.width > bounds.width {
        direction.spec_horizontal()
    } else {
        None
    }
}

/// The properties of the vertical scrollbar where it is shown: the region
/// scrolls vertically and the content is higher than the region.
pub open spec fn shown_vertical(
    direction: Direction,
    bounds: Rectangle,
    content_bounds: Rectangle,
) -> Option<Properties> {
    if content_bounds.height > bounds.height {
        direction.spec_vertical()
    } else {
        None
    }
}

/// The scrollbars of a region in a given state. The vertical scrollbar
/// leaves the horizontal one its thickness and one margin; the horizontal
/// scrollbar leaves the vertical one its whole thickness.
pub open spec fn scrollbars_of(
    state: State,
    direction: Direction,
    bounds: Rectangle,
    content_bounds: Rectangle,
) -> Scrollbars {
    let translation = state.spec_translation(direction, bounds, content_bounds);
    let show_x = shown_horizontal(direction, bounds, content_bounds);
    let show_y = shown_vertical(direction, bounds, content_bounds);
    Scrollbars {
        y: match show_y {
            Some(vertical) => Some(
                vertical_bar(
                    bar_layout(
                        vertical,
                        bounds.x + bounds.width,
                        bounds.y as int,
                        bounds.height,
                        content_bounds.height,
                        match show_x {
                            Some(horizontal) => horizontal.thickness() + horizontal.margin,
                            None => 0,
                        },
                        translation.y as int,
                    ),
                    vertical,
                ),
            ),
            None => None,
        },
        x: match show_x {
            Some(horizontal) => Some(
                horizontal_bar(
                    bar_layout(
                        horizontal,
                        bounds.y + bounds.height,
                        bounds.x as int,
                        bounds.width,
                        content_bounds.width,
                        match show_y {
                            Some(vertical) => vertical.thickness() + 2 * vertical.margin,
                            None => 0,
                        },
                        translation.x as int,
                    ),
                    horizontal,
                ),
            ),
            None => None,
        },
    }
}

/// A [`Bar`] in machine integers.
struct BarValues {
    total_across: i64,
    total_thickness: i64,
    track_across: i64,
    scroller_across: i64,
    along: i64,
    length: i64,
    scroller_along: i64,
    scroller_length: i64,
}

impl BarValues {
    spec fn view(&self) -> Bar {
        Bar {
            total_across: self.total_across as int,
            total_thickness: self.total_thickness as int,
            track_across: self.track_across as int,
            scroller_across: self.scroller_across as int,
            along: self.along as int,
            length: self.length as int,
            scroller_along: self.scroller_along as int,
            scroller_length: self.scroller_length as int,
        }
    }
}

/// The quotient of a product by a number that is at least one of the
/// factors is at most the other factor.
proof fn lemma_scaled_down(a: int, b: int, c: int)
    requires
        0 <= a,
        0 <= b <= c,
        0 < c,
    ensures
        0 <= a * b / c <= a,
        0 <= a * b,
{
    assert(0 <= a * b <= a * c) by (nonlinear_arith)
        requires
            0 <= a,
            0 <= b <= c,
    ;
    assert(a * b / c <= a) by (nonlinear_arith)
        requires
            0 <= a * b <= a * c,
            0 < c,
    ;
    assert(0 <= a * b / c) by (nonlinear_arith)
        requires
            0 <= a * b,
            0 < c,
    ;
}

fn lay_out_bar(
    properties: Properties,
    far_edge: i64,
    start: i32,
    viewport: u32,
    content: u32,
    reserved: i64,
    translation: i64,
) -> (bar: BarValues)
    requires
        viewport < content,
        -0x1_0000_0000 <= far_edge <= 0x2_0000_0000,
        0 <= reserved <= 0x3_0000_0000,
        0 <= translation <= content - viewport,
    ensures
        bar@ == bar_layout(
            properties,
            far_edge as int,
            start as int,
            viewport,
            content,
            reserved as int,
            translation as int,
        ),
        0 <= bar.length <= viewport,
        MIN_SCROLLER_LENGTH <= bar.scroller_length,
        0 <= bar.total_thickness <= 0x3_0000_0000,
{
    let thickness: i64 = if properties.width >= properties.scroller_width {
        properties.width as i64
    } else {
        properties.scroller_width as i64
    };
    let total_thickness: i64 = thickness + 2 * (properties.margin as i64);
    let room: i64 = viewport as i64 - reserved;
    let length: i64 = if room >= 0 {
        room
    } else {
        0
    };
    proof {
        lemma_scaled_down(length as int, translation as int, content as int);
        lemma_scaled_down(length as int, viewport as int, content as int);
        assert(length * translation == translation * length) by (nonlinear_arith);
        assert(translation * length <= 0xffff_ffff * 0xffff_ffff) by (nonlinear_arith)
            requires
                0 <= translation <= 0xffff_ffff,
                0 <= length <= 0xffff_ffff,
        ;
        assert(length * viewport <= 0xffff_ffff * 0xffff_ffff) by (nonlinear_arith)
            requires
                0 <= viewport <= 0xffff_ffff,
                0 <= length <= 0xffff_ffff,
        ;
    }
    let offset: i64 = ((translation as i128) * (length as i128) / (content as i128)) as i64;
    let shown: i64 = ((length as i128) * (viewport as i128) / (content as i128)) as i64;
    let scroller_start: i64 = start as i64 + offset;
    BarValues {
        total_across: far_edge - total_thickness,
        total_thickness,
        track_across: far_edge - total_thickness / 2 - (properties.width as i64) / 2,
        scroller_across: far_edge - total_thickness / 2 - (properties.scroller_width as i64) / 2,
        along: start as i64,
        length,
        scroller_along: if scroller_start >= 0 {
            scroller_start
        } else {
            0
        },
        scroller_length: if shown >= MIN_SCROLLER_LENGTH {
            shown
        } else {
            MIN_SCROLLER_LENGTH
        },
    }
}

impl Scrollbars {
    /// Create y and/or x scrollbar(s) if content is overflowing the bounds
    /// of the region.
    pub fn new(
        state: &State,
        direction: Direction,
        bounds: Rectangle,
        content_bounds: Rectangle,
    ) -> (scrollbars: Scrollbars)
        ensures
            scrollbars == scrollbars_of(*state, direction, bounds, content_bounds),
    {
        let translation = state.translation(direction, bounds, content_bounds);
        let show_x: Option<Properties> = if content_bounds.width > bounds.width {
            direction.horizontal()
        } else {
            None
        };
        let show_y: Option<Properties> = if content_bounds.height > bounds.height {
            direction.vertical()
        } else {
            None
        };
        let y_scrollbar: Option<Scrollbar> = match show_y {
            Some(vertical) => {
                let reserved: i64 = match show_x {
                    Some(horizontal) => {
                        let thickness: i64 = if horizontal.width >= horizontal.scroller_width {
                            horizontal.width as i64
                        } else {
                            horizontal.scroller_width as i64
                        };
                        thickness + horizontal.margin as i64
                    },
                    None => 0,
                };
                let bar = lay_out_bar(
                    vertical,
                    bounds.x as i64 + bounds.width as i64,
                    bounds.y,
                    bounds.height,
                    content_bounds.height,
                    reserved,
                    translation.y,
                );
                Some(
                    Scrollbar {
                        total_bounds: Frame {
                            x: bar.total_across,
                            y: bar.along,
                            width: bar.total_thickness,
                            height: bar.length,
                        },
                        bounds: Frame {
                            x: bar.track_across,
                            y: bar.along,
                            width: vertical.width as i64,
                            height: bar.length,
                        },
                        scroller: Scroller {
                            bounds: Frame {
                                x: bar.scroller_across,
                                y: bar.scroller_along,
                                width: vertical.scroller_width as i64,
                                height: bar.scroller_length,
                            },
                        },
                        alignment: vertical.alignment,
                    },
                )
            },
            None => None,
        };
        let x_scrollbar: Option<Scrollbar> = match show_x {
            Some(horizontal) => {
                let reserved: i64 = match y_scrollbar {
                    Some(scrollbar) => scrollbar.total_bounds.width,
                    None => 0,
                };
                let bar = lay_out_bar(
                    horizontal,
                    bounds.y as i64 + bounds.height as i64,
                    bounds.x,
                    bounds.width,
                    content_bounds.width,
                    reserved,
                    translation.x,
                );
                Some(
                    Scrollbar {
                        total_bounds: Frame {
                            x: bar.along,
                            y: bar.total_across,
                            width: bar.length,
                            height: bar.total_thickness,
                        },
                        bounds: Frame {
                            x: bar.along,
                            y: bar.track_across,
                            width: bar.length,
                            height: horizontal.width as i64,
                        },
                        scroller: Scroller {
                            bounds: Frame {
                                x: bar.scroller_along,
                                y: bar.scroller_across,
                                width: bar.scroller_length,
                                height: horizontal.scroller_width as i64,
                            },
                        },
                        alignment: horizontal.alignment,
                    },
                )
            },
            None => None,
        };
        Scrollbars { y: y_scrollbar, x: x_scrollbar }
    }

    /// Whether the pointer is over the vertical and over the horizontal
    /// scrollbar; neither where it has no position.
    pub open spec fn spec_is_mouse_over(&self, cursor: Option<Point>) -> (bool, bool) {
        match cursor {
            Some(position) => (
                match self.y {
                    Some(scrollbar) => scrollbar.spec_is_mouse_over(position),
                    None => false,
                },
                match self.x {
                    Some(scrollbar) => scrollbar.spec_is_mouse_over(position),
                    None => false,
                },
            ),
            None => (false, false),
        }
    }

    /// Returns whether the pointer is over the vertical scrollbar and
    /// whether it is over the horizontal one.
    #[verifier::when_used_as_spec(spec_is_mouse_over)]
    pub fn is_mouse_over(&self, cursor: Option<Point>) -> (over: (bool, bool))
        ensures
            over == self.spec_is_mouse_over(cursor),
    {
        match cursor {
            Some(position) => (
                match self.y {
                    Some(scrollbar) => scrollbar.is_mouse_over(position),
                    None => false,
                },
                match self.x {
                    Some(scrollbar) => scrollbar.is_mouse_over(position),
                    None => false,
                },
            ),
            None => (false, false),
        }
    }

    /// Where a press at the given position takes hold of the vertical
    /// handle: nowhere outside the scrollbar's total bounds; on the handle,
    /// at the part of its length where the position lies; elsewhere on the
    /// scrollbar at its middle, so that the handle jumps under the pointer.
    pub open spec fn spec_grab_y_scroller(&self, cursor_position: Point) -> Option<i64> {
        match self.y {
            Some(scrollbar) => grab_point(
                scrollbar,
                cursor_position,
                cursor_position.y - scrollbar.scroller.bounds.y,
                scrollbar.scroller.bounds.height as int,
            ),
            None => None,
        }
    }

    /// As [`Scrollbars::spec_grab_y_scroller`], for the horizontal handle.
    pub open spec fn spec_grab_x_scroller(&self, cursor_position: Point) -> Option<i64> {
        match self.x {
            Some(scrollbar) => grab_point(
                scrollbar,
                cursor_position,
                cursor_position.x - scrollbar.scroller.bounds.x,
                scrollbar.scroller.bounds.width as int,
            ),
            None => None,
        }
    }

    /// Where a press at the given position takes hold of the vertical
    /// handle, in millionths of its length.
    #[verifier::when_used_as_spec(spec_grab_y_scroller)]
    pub fn grab_y_scroller(&self, cursor_position: Point) -> (grabbed_at: Option<i64>)
        ensures
            grabbed_at == self.spec_grab_y_scroller(cursor_position),
            grabbed_at matches Some(part) ==> 0 <= part < WHOLE,
    {
        match self.y {
            Some(scrollbar) => {
                if scrollbar.total_bounds.contains(cursor_position) {
                    if scrollbar.scroller.bounds.contains(cursor_position) {
                        Some(
                            part_of_handle(
                                cursor_position.y as i64 - scrollbar.scroller.bounds.y,
                                scrollbar.scroller.bounds.height,
                            ),
                        )
                    } else {
                        Some(HALF)
                    }
                } else {
                    None
                }
            },
            None => None,
        }
    }

    /// Where a press at the given position takes hold of the horizontal
    /// handle, in millionths of its length.
    #[verifier::when_used_as_spec(spec_grab_x_scroller)]
    pub fn grab_x_scroller(&self, cursor_position: Point) -> (grabbed_at: Option<i64>)
        ensures
            grabbed_at == self.spec_grab_x_scroller(cursor_position),
            grabbed_at matches Some(part) ==> 0 <= part < WHOLE,
    {
        match self.x {
            Some(scrollbar) => {
                if scrollbar.total_bounds.contains(cursor_position) {
                    if scrollbar.scroller.bounds.contains(cursor_position) {
                        Some(
                            part_of_handle(
                                cursor_position.x as i64 - scrollbar.scroller.bounds.x,
                                scrollbar.scroller.bounds.width,
                            ),
                        )
                    } else {
                        Some(HALF)
                    }
                } else {
                    None
                }
            },
            None => None,
        }
    }

    /// Whether a scrollbar is shown.
    pub open spec fn spec_active(&self) -> bool {
        self.y is Some || self.x is Some
    }

    /// Returns whether any scrollbar is shown.
    #[verifier::when_used_as_spec(spec_active)]
    pub fn active(&self) -> (active: bool)
        ensures
            active == self.spec_active(),
    {
        self.y.is_some() || self.x.is_some()
    }
}

/// Where a press takes hold of a handle, given how far into the handle the
/// position lies and how long the handle is.
pub open spec fn grab_point(
    scrollbar: Scrollbar,
    cursor_position: Point,
    into_handle: int,
    handle_length: int,
) -> Option<i64> {
    if scrollbar.total_bounds.spec_contains(cursor_position) {
        Some(
            if scrollbar.scroller.bounds.spec_contains(cursor_position) {
                (into_handle * WHOLE / handle_length) as i64
            } else {
                HALF
            },
        )
    } else {
        None
    }
}

fn part_of_handle(into_handle: i64, handle_length: i64) -> (part: i64)
    requires
        0 <= into_handle < handle_length,
    ensures
        part == into_handle * WHOLE / (handle_length as int),
        0 <= part < WHOLE,
{
    proof {
        assert(0 <= into_handle * 1_000_000 < handle_length * 1_000_000) by (nonlinear_arith)
            requires
                0 <= into_handle < handle_length,
        ;
        assert(into_handle * 1_000_000 / (handle_length as int) < 1_000_000) by (nonlinear_arith)
            requires
                0 <= into_handle * 1_000_000 < handle_length * 1_000_000,
                0 < handle_length,
        ;
        assert(0 <= into_handle * 1_000_000 / (handle_length as int)) by (nonlinear_arith)
            requires
                0 <= into_handle * 1_000_000,
                0 < handle_length,
        ;
    }
    let scaled: i128 = (into_handle as i128) * (WHOLE as i128);
    (scaled / (handle_length as i128)) as i64
}

/// The relative offset that a drag asks for, in millionths; it is not
/// held between the start and the end.
///
/// The handle is held at `grabbed_at` of its length, in millionths, and the
/// pointer is at `cursor` along the track. What the handle leaves free of
/// the track is the way that the drag can go; the offset is the part of
/// that way at which the start of the handle then lies, rounded down. A
/// pointer before the track gives an offset below 0, one after it an offset
/// above [`WHOLE`]. A handle that fills the track gives 0; with one longer
/// than the track the free way is negative and the quotient is taken of
/// both numbers with their signs turned. Content aligned to the end counts
/// from the other end.
pub open spec fn drag_percentage(
    cursor: int,
    track_start: int,
    track_length: int,
    handle_length: int,
    grabbed_at: int,
    alignment: Alignment,
) -> int {
    let free = track_length - handle_length;
    let numerator = (cursor - track_start) * WHOLE - handle_length * grabbed_at;
    let percentage = if free > 0 {
        numerator / free
    } else if free < 0 {
        (-numerator) / (-free)
    } else {
        0
    };
    match alignment {
        Alignment::Start => percentage,
        Alignment::End => WHOLE - percentage,
    }
}

/// The greatest size of the numerator of a drag.
spec fn numerator_limit() -> int {
    0x4000_0000_0000_0000_0000_0000_0000_0000int + 0x10_0000_0000_0000_0000_0000int
}

/// The quotient of a number by a positive number, rounded down.
fn floor_quotient(numerator: i128, divisor: i128) -> (quotient: i128)
    requires
        0 < divisor <= 0x1_0000_0000_0000_0000,
        -numerator_limit() <= numerator <= numerator_limit(),
    ensures
        quotient == numerator as int / divisor as int,
        -numerator_limit() <= quotient <= numerator_limit(),
{
    if numerator >= 0 {
        proof {
            lemma_quotient_within(numerator as int, divisor as int);
        }
        numerator / divisor
    } else {
        let raised: i128 = -numerator + divisor - 1;
        proof {
            lemma_quotient_within(raised as int, divisor as int);
            lemma_floor_of_negative(numerator as int, divisor as int);
            assert(raised as int / divisor as int <= -numerator) by (nonlinear_arith)
                requires
                    raised == -numerator + divisor - 1,
                    numerator < 0,
                    0 < divisor,
            ;
        }
        -(raised / divisor)
    }
}

/// The quotient of a number that is not negative by a positive number lies
/// between 0 and the number.
proof fn lemma_quotient_within(number: int, divisor: int)
    requires
        0 <= number,
        0 < divisor,
    ensures
        0 <= number / divisor <= number,
{
    assert(0 <= number / divisor <= number) by (nonlinear_arith)
        requires
            0 <= number,
            0 < divisor,
    ;
}

/// Rounding down the quotient of a negative number is rounding up the
/// quotient of the number with its sign turned.
proof fn lemma_floor_of_negative(number: int, divisor: int)
    requires
        number < 0,
        0 < divisor,
    ensures
        number / divisor == -((-number + divisor - 1) / divisor),
{
    let raised = -number + divisor - 1;
    let quotient = raised / divisor;
    let rest = raised % divisor;
    vstd::arithmetic::div_mod::lemma_fundamental_div_mod(raised, divisor);
    vstd::arithmetic::div_mod::lemma_mod_pos_bound(raised, divisor);
    assert(number == (-quotient) * divisor + (divisor - 1 - rest)) by (nonlinear_arith)
        requires
            raised == divisor * quotient + rest,
            raised == -number + divisor - 1,
    ;
    vstd::arithmetic::div_mod::lemma_fundamental_div_mod_converse(
        number,
        divisor,
        -quotient,
        divisor - 1 - rest,
    );
}

fn drag_percentage_of(
    cursor: i32,
    track_start: i64,
    track_length: i64,
    handle_length: i64,
    grabbed_at: i64,
    alignment: Alignment,
) -> (percentage: i128)
    ensures
        percentage == drag_percentage(
            cursor as int,
            track_start as int,
            track_length as int,
            handle_length as int,
            grabbed_at as int,
            alignment,
        ),
{
    let free: i128 = track_length as i128 - handle_length as i128;
    let way: i128 = cursor as i128 - track_start as i128;
    proof {
        assert(-0x4000_0000_0000_0000_0000_0000_0000_0000 <= handle_length * grabbed_at
            <= 0x4000_0000_0000_0000_0000_0000_0000_0000) by (nonlinear_arith)
            requires
                -0x8000_0000_0000_0000 <= handle_length <= 0x8000_0000_0000_0000,
                -0x8000_0000_0000_0000 <= grabbed_at <= 0x8000_0000_0000_0000,
        ;
        assert(-0x10_0000_0000_0000_0000_0000 <= way * 1_000_000
            <= 0x10_0000_0000_0000_0000_0000) by (nonlinear_arith)
            requires
                -0x1_0000_0000_0000_0000 <= way <= 0x1_0000_0000_0000_0000,
        ;
    }
    let numerator: i128 = way * (WHOLE as i128) - (handle_length as i128) * (grabbed_at as i128);
    let percentage: i128 = if free > 0 {
        floor_quotient(numerator, free)
    } else if free < 0 {
        floor_quotient(-numerator, -free)
    } else {
        0
    };
    match alignment {
        Alignment::Start => percentage,
        Alignment::End => WHOLE as i128 - percentage,
    }
}

/// A drag follows the pointer: along a track that is longer than the
/// handle, a pointer further along asks for an offset that is no smaller
/// where the content is aligned to the start, and no greater where it is
/// aligned to the end.
pub proof fn lemma_drag_follows_pointer(
    near: int,
    far: int,
    track_start: int,
    track_length: int,
    handle_length: int,
    grabbed_at: int,
)
    requires
        near <= far,
        handle_length < track_length,
    ensures
        drag_percentage(
            near,
            track_start,
            track_length,
            handle_length,
            grabbed_at,
            Alignment::Start,
        ) <= drag_percentage(
            far,
            track_start,
            track_length,
            handle_length,
            grabbed_at,
            Alignment::Start,
        ),
        drag_percentage(
            near,
            track_start,
            track_length,
            handle_length,
            grabbed_at,
            Alignment::End,
        ) >= drag_percentage(
            far,
            track_start,
            track_length,
            handle_length,
            grabbed_at,
            Alignment::End,
        ),
{
    let free = track_length - handle_length;
    let low = (near - track_start) * WHOLE - handle_length * grabbed_at;
    let high = (far - track_start) * WHOLE - handle_length * grabbed_at;
    assert(low <= high) by (nonlinear_arith)
        requires
            near <= far,
            low == (near - track_start) * 1_000_000 - handle_length * grabbed_at,
            high == (far - track_start) * 1_000_000 - handle_length * grabbed_at,
    ;
    vstd::arithmetic::div_mod::lemma_div_is_ordered(low, high, free);
}

/// A handle that is dragged to where the pointer asks lies under the
/// pointer as it was grabbed: in millionths of a pixel, the start of the
/// handle, which is the offset's part of the free way, and the grabbed part
/// of the handle's length together reach the pointer, short of it by less
/// than the free way.
pub proof fn lemma_drag_keeps_grip(
    cursor: int,
    track_start: int,
    track_length: int,
    handle_length: int,
    grabbed_at: int,
)
    requires
        handle_length < track_length,
    ensures
        ({
            let offset = drag_percentage(
                cursor,
                track_start,
                track_length,
                handle_length,
                grabbed_at,
                Alignment::Start,
            );
            let free = track_length - handle_length;
            let reached = offset * free + handle_length * grabbed_at;
            (cursor - track_start) * WHOLE - free < reached <= (cursor - track_start) * WHOLE
        }),
{
    let free = track_length - handle_length;
    let numerator = (cursor - track_start) * WHOLE - handle_length * grabbed_at;
    vstd::arithmetic::div_mod::lemma_fundamental_div_mod(numerator, free);
    vstd::arithmetic::div_mod::lemma_mod_bound(numerator, free);
    assert((numerator / free) * free == free * (numerator / free)) by (nonlinear_arith);
}

impl Scrollbar {
    /// Whether the position lies within the total bounds of the scrollbar.
    pub open spec fn spec_is_mouse_over(&self, cursor_position: Point) -> bool {
        self.total_bounds.spec_contains(cursor_position)
    }

    /// Returns whether the mouse is over the scrollbar or not.
    #[verifier::when_used_as_spec(spec_is_mouse_over)]
    pub fn is_mouse_over(&self, cursor_position: Point) -> (over: bool)
        ensures
            over == self.spec_is_mouse_over(cursor_position),
    {
        self.total_bounds.contains(cursor_position)
    }

    /// Returns the y-axis scrolled percentage from the cursor position, in
    /// millionths; a cursor off the track gives one below 0 or above
    /// [`WHOLE`].
    pub fn scroll_percentage_y(&self, grabbed_at: i64, cursor_position: Point) -> (percentage: i128)
        ensures
            percentage == drag_percentage(
                cursor_position.y as int,
                self.bounds.y as int,
                self.bounds.height as int,
                self.scroller.bounds.height as int,
                grabbed_at as int,
                self.alignment,
            ),
    {
        drag_percentage_of(
            cursor_position.y,
            self.bounds.y,
            self.bounds.height,
            self.scroller.bounds.height,
            grabbed_at,
            self.alignment,
        )
    }

    /// Returns the x-axis scrolled percentage from the cursor position, in
    /// millionths; a cursor off the track gives one below 0 or above
    /// [`WHOLE`].
    pub fn scroll_percentage_x(&self, grabbed_at: i64, cursor_position: Point) -> (percentage: i128)
        ensures
            percentage == drag_percentage(
                cursor_position.x as int,
                self.bounds.x as int,
                self.bounds.width as int,
                self.scroller.bounds.width as int,
                grabbed_at as int,
                self.alignment,
            ),
    {
        drag_percentage_of(
            cursor_position.x,
            self.bounds.x,
            self.bounds.width,
            self.scroller.bounds.width,
            grabbed_at,
            self.alignment,
        )
    }
}

/// The handle stays on the track: it starts no earlier than the track,
/// and unless it has its least length it ends no later. At the start of
/// the content the handle lies at the start of the track.
pub proof fn lemma_handle_on_track(
    properties: Properties,
    far_edge: int,
    start: int,
    viewport: u32,
    content: u32,
    reserved: int,
    translation: int,
)
    requires
        viewport < content,
        0 <= translation <= content - viewport,
        0 <= start,
    ensures
        ({
            let bar = bar_layout(
                properties,
                far_edge,
                start,
                viewport,
                content,
                reserved,
                translation,
            );
            &&& bar.along <= bar.scroller_along
            &&& translation == 0 ==> bar.scroller_along == bar.along
            &&& bar.scroller_length >= MIN_SCROLLER_LENGTH
            &&& bar.scroller_length > MIN_SCROLLER_LENGTH ==> bar.scroller_along
                + bar.scroller_length <= bar.along + bar.length
        }),
{
    let length = max(viewport - reserved, 0);
    let c = content as int;
    let v = viewport as int;
    lemma_scaled_down(length, translation, c);
    lemma_scaled_down(length, v, c);
    assert(translation * length == length * translation) by (nonlinear_arith);
    let a = length * translation;
    let b = length * v;
    assert(a + b == length * (translation + v)) by (nonlinear_arith)
        requires
            a == length * translation,
            b == length * v,
    ;
    assert(length * (translation + v) <= length * c) by (nonlinear_arith)
        requires
            0 <= length,
            translation + v <= c,
    ;
    assert(a / c + b / c <= length) by (nonlinear_arith)
        requires
            0 <= a,
            0 <= b,
            a + b <= length * c,
            0 < c,
    ;
    if translation == 0 {
        assert(a == 0) by (nonlinear_arith)
            requires
                a == length * translation,
                translation == 0,
        ;
    }
}

} // verus!
