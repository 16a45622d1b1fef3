//! The scroll offset of an axis, and the viewport that a region shows.

use vstd::prelude::*;
use crate::scrollable::geometry::{Alignment, Rectangle, WHOLE};

verus! {

/// A scroll position: the distance in pixels from the start of the content,
/// along each axis.
#[derive(Clone, Copy, Debug, PartialEq, Eq, Structural)]
pub struct AbsoluteOffset {
    pub x: i64,
    pub y: i64,
}

/// A scroll position as a part of the scrollable range along each axis, in
/// millionths: 0 is the start and [`WHOLE`] the end.
#[derive(Clone, Copy, Debug, PartialEq, Eq, Structural)]
pub struct RelativeOffset {
    pub x: i64,
    pub y: i64,
}

/// The offset of one axis: a distance, or a part of the scrollable range
/// that is resolved once the sizes of viewport and content are known.
#[derive(Clone, Copy, Debug, PartialEq, Eq, Structural)]
pub enum Offset {
    Absolute(i64),
    Relative(i64),
}

/// The distance over which content can be scrolled: by how much it is longer
/// than the viewport, and 0 where it fits.
pub open spec fn scroll_range(viewport: u32, content: u32) -> int {
    if content > viewport {
        content - viewport
    } else {
        0
    }
}

/// A value held between two bounds.
pub open spec fn clamp(value: int, low: int, high: int) -> int {
    if value < low {
        low
    } else if value > high {
        high
    } else {
        value
    }
}

/// The distance that stands for a part of a range, rounded down.
pub open spec fn part_of_range(range: int, millionths: int) -> int {
    range * clamp(millionths, 0, WHOLE as int) / (WHOLE as int)
}

/// The part of a range at which a distance lies, rounded down; 0 where there
/// is nothing to scroll.
pub open spec fn part_in_range(range: int, distance: int) -> int {
    if range > 0 {
        distance * WHOLE / range
    } else {
        0
    }
}

/// Computes [`scroll_range`].
pub fn range_of(viewport: u32, content: u32) -> (range: i64)
    ensures
        range == scroll_range(viewport, content),
        0 <= range <= u32::MAX,
{
    if content > viewport {
        (content - viewport) as i64
    } else {
        0
    }
}

/// Holds a relative offset between the start and the end.
pub fn clamp_relative(millionths: i64) -> (clamped: i64)
    ensures
        clamped == clamp(millionths as int, 0, WHOLE as int),
        0 <= clamped <= WHOLE,
{
    if millionths < 0 {
        0
    } else if millionths > WHOLE {
        WHOLE
    } else {
        millionths
    }
}

/// A part of a range is a distance within that range, and the parts grow
/// with the millionths.
pub proof fn lemma_part_of_range_bounds(range: int, millionths: int)
    requires
        0 <= range,
    ensures
        0 <= part_of_range(range, millionths) <= range,
        millionths <= 0 ==> part_of_range(range, millionths) == 0,
        millionths >= WHOLE ==> part_of_range(range, millionths) == range,
{
    let p = clamp(millionths, 0, WHOLE as int);
    assert(0 <= range * p <= range * 1_000_000) by (nonlinear_arith)
        requires
            0 <= range,
            0 <= p <= 1_000_000,
    ;
    assert(range * 1_000_000 / 1_000_000 == range);
    if p == 0 {
        assert(range * p == 0) by (nonlinear_arith)
            requires
                p == 0,
        ;
    }
}

impl Offset {
    /// The distance in pixels that the offset stands for, with a viewport
    /// and content of the given lengths: never negative and never past the
    /// end of the scrollable range.
    pub open spec fn spec_absolute(self, viewport: u32, content: u32) -> int {
        match self {
            Offset::Absolute(distance) => clamp(distance as int, 0, scroll_range(viewport, content)),
            Offset::Relative(millionths) => part_of_range(
                scroll_range(viewport, content),
                millionths as int,
            ),
        }
    }

    /// The distance by which the content is moved: the offset itself where
    /// the content is aligned to the start, and what is left of the
    /// scrollable range where it is aligned to the end.
    pub open spec fn spec_translation(
        self,
        viewport: u32,
        content: u32,
        alignment: Alignment,
    ) -> int {
        match alignment {
            Alignment::Start => self.spec_absolute(viewport, content),
            Alignment::End => scroll_range(viewport, content) - self.spec_absolute(
                viewport,
                content,
            ),
        }
    }

    /// Resolves the offset to a distance in pixels.
    pub fn absolute(self, viewport: u32, content: u32) -> (distance: i64)
        ensures
            distance == self.spec_absolute(viewport, content),
            0 <= distance <= scroll_range(viewport, content),
    {
        let range: i64 = range_of(viewport, content);
        match self {
            Offset::Absolute(distance) => {
                if distance < 0 {
                    0
                } else if distance > range {
                    range
                } else {
                    distance
                }
            },
            Offset::Relative(millionths) => {
                let part: i64 = clamp_relative(millionths);
                proof {
                    lemma_part_of_range_bounds(range as int, millionths as int);
                    assert(0 <= range * part <= 0xffff_ffff * 1_000_000) by (nonlinear_arith)
                        requires
                            0 <= range <= 0xffff_ffff,
                            0 <= part <= 1_000_000,
                    ;
                }
                range * part / WHOLE
            },
        }
    }

    /// Resolves the offset to the distance by which the content is moved.
    pub fn translation(self, viewport: u32, content: u32, alignment: Alignment) -> (distance: i64)
        ensures
            distance == self.spec_translation(viewport, content, alignment),
            0 <= distance <= scroll_range(viewport, content),
    {
        let offset: i64 = self.absolute(viewport, content);
        match alignment {
            Alignment::Start => offset,
            Alignment::End => range_of(viewport, content) - offset,
        }
    }
}

/// What a scrollable region shows: the offsets of both axes together with
/// the bounds of the region and of its content.
#[derive(Clone, Copy, Debug, PartialEq, Eq, Structural)]
pub struct Viewport {
    pub offset_x: Offset,
    pub offset_y: Offset,
    pub bounds: Rectangle,
    pub content_bounds: Rectangle,
}

impl Viewport {
    /// The distance scrolled along each axis.
    pub open spec fn spec_absolute_offset(&self) -> AbsoluteOffset {
        AbsoluteOffset {
            x: self.offset_x.spec_absolute(self.bounds.width, self.content_bounds.width) as i64,
            y: self.offset_y.spec_absolute(self.bounds.height, self.content_bounds.height) as i64,
        }
    }

    /// The distance left to scroll along each axis.
    pub open spec fn spec_absolute_offset_reversed(&self) -> AbsoluteOffset {
        AbsoluteOffset {
            x: (scroll_range(self.bounds.width, self.content_bounds.width)
                - self.spec_absolute_offset().x) as i64,
            y: (scroll_range(self.bounds.height, self.content_bounds.height)
                - self.spec_absolute_offset().y) as i64,
        }
    }

    /// The part of the scrollable range that is scrolled along each axis; 0
    /// along an axis whose content fits.
    pub open spec fn spec_relative_offset(&self) -> RelativeOffset {
        RelativeOffset {
            x: part_in_range(
                scroll_range(self.bounds.width, self.content_bounds.width),
                self.spec_absolute_offset().x as int,
            ) as i64,
            y: part_in_range(
                scroll_range(self.bounds.height, self.content_bounds.height),
                self.spec_absolute_offset().y as int,
            ) as i64,
        }
    }

    /// Returns the [`AbsoluteOffset`] of the current [`Viewport`].
    #[verifier::when_used_as_spec(spec_absolute_offset)]
    pub fn absolute_offset(&self) -> (offset: AbsoluteOffset)
        ensures
            offset == self.spec_absolute_offset(),
            0 <= offset.x <= scroll_range(self.bounds.width, self.content_bounds.width),
            0 <= offset.y <= scroll_range(self.bounds.height, self.content_bounds.height),
    {
        let x: i64 = self.offset_x.absolute(self.bounds.width, self.content_bounds.width);
        let y: i64 = self.offset_y.absolute(self.bounds.height, self.content_bounds.height);
        AbsoluteOffset { x, y }
    }

    /// Returns the [`AbsoluteOffset`] of the current [`Viewport`], but with
    /// its alignment reversed: what is left to scroll until the end.
    ///
    /// This can be useful to switch the alignment of a region while
    /// maintaining its scrolling position.
    #[verifier::when_used_as_spec(spec_absolute_offset_reversed)]
    pub fn absolute_offset_reversed(&self) -> (offset: AbsoluteOffset)
        ensures
            offset == self.spec_absolute_offset_reversed(),
            0 <= offset.x <= scroll_range(self.bounds.width, self.content_bounds.width),
            0 <= offset.y <= scroll_range(self.bounds.height, self.content_bounds.height),
    {
        let AbsoluteOffset { x, y } = self.absolute_offset();
        AbsoluteOffset {
            x: range_of(self.bounds.width, self.content_bounds.width) - x,
            y: range_of(self.bounds.height, self.content_bounds.height) - y,
        }
    }

    /// Returns the [`RelativeOffset`] of the current [`Viewport`].
    #[verifier::when_used_as_spec(spec_relative_offset)]
    pub fn relative_offset(&self) -> (offset: RelativeOffset)
        ensures
            offset == self.spec_relative_offset(),
            0 <= offset.x <= WHOLE,
            0 <= offset.y <= WHOLE,
    {
        let AbsoluteOffset { x, y } = self.absolute_offset();
        let x: i64 = relative_part(range_of(self.bounds.width, self.content_bounds.width), x);
        let y: i64 = relative_part(range_of(self.bounds.height, self.content_bounds.height), y);
        RelativeOffset { x, y }
    }

    /// Returns the bounds of the current [`Viewport`].
    pub fn bounds(&self) -> (bounds: Rectangle)
        ensures
            bounds == self.bounds,
    {
        self.bounds
    }

    /// Returns the content bounds of the current [`Viewport`].
    pub fn content_bounds(&self) -> (bounds: Rectangle)
        ensures
            bounds == self.content_bounds,
    {
        self.content_bounds
    }
}

/// Computes [`part_in_range`] of a distance within the range.
fn relative_part(range: i64, distance: i64) -> (millionths: i64)
    requires
        0 <= range <= u32::MAX,
        0 <= distance <= range,
    ensures
        millionths == part_in_range(range as int, distance as int),
        0 <= millionths <= WHOLE,
{
    if range > 0 {
        proof {
            assert(0 <= distance * 1_000_000 <= range * 1_000_000 <= 0xffff_ffff * 1_000_000)
                by (nonlinear_arith)
                requires
                    0 <= distance <= range <= 0xffff_ffff,
            ;
            assert(distance * 1_000_000 / (range as int) <= 1_000_000) by (nonlinear_arith)
                requires
                    0 <= distance <= range,
                    range > 0,
            ;
            assert(distance * 1_000_000 / (range as int) >= 0) by (nonlinear_arith)
                requires
                    0 <= distance,
                    range > 0,
            ;
        }
        distance * WHOLE / range
    } else {
        0
    }
}

} // verus!
