//! Points, rectangles and the configuration of the scrollbars.

use vstd::prelude::*;

verus! {

/// The relative offset of the end of the scrollable range, in millionths.
pub const WHOLE: i64 = 1_000_000;

/// The relative offset of the middle of the scrollable range.
pub const HALF: i64 = 500_000;

/// The least length of a scrollbar's handle, so that it can be grabbed even
/// with very long content.
pub const MIN_SCROLLER_LENGTH: i64 = 2;

/// A position in pixels.
#[derive(Clone, Copy, Debug, PartialEq, Eq, Structural)]
pub struct Point {
    pub x: i32,
    pub y: i32,
}

/// A displacement in pixels.
#[derive(Clone, Copy, Debug, PartialEq, Eq, Structural)]
pub struct Vector {
    pub x: i32,
    pub y: i32,
}

/// The bounds of a laid-out element: its top-left corner and its size.
#[derive(Clone, Copy, Debug, PartialEq, Eq, Structural)]
pub struct Rectangle {
    pub x: i32,
    pub y: i32,
    pub width: u32,
    pub height: u32,
}

/// A rectangle that is computed from the bounds of elements, such as a
/// scrollbar's track. It may lie outside the range of a [`Rectangle`].
#[derive(Clone, Copy, Debug, PartialEq, Eq, Structural)]
pub struct Frame {
    pub x: i64,
    pub y: i64,
    pub width: i64,
    pub height: i64,
}

impl Frame {
    /// Whether the point lies inside: the left and top edges belong to the
    /// frame, the right and bottom edges do not.
    pub open spec fn spec_contains(&self, point: Point) -> bool {
        &&& self.x <= point.x < self.x + self.width
        &&& self.y <= point.y < self.y + self.height
    }

    /// Whether the point lies inside the frame.
    #[verifier::when_used_as_spec(spec_contains)]
    pub fn contains(&self, point: Point) -> (inside: bool)
        ensures
            inside == self.spec_contains(point),
    {
        let px: i128 = point.x as i128;
        let py: i128 = point.y as i128;
        let left: i128 = self.x as i128;
        let top: i128 = self.y as i128;
        left <= px && px < left + self.width as i128 && top <= py && py < top
            + self.height as i128
    }
}

impl Rectangle {
    /// Whether the point lies inside: the left and top edges belong to the
    /// rectangle, the right and bottom edges do not.
    pub open spec fn spec_contains(&self, point: Point) -> bool {
        &&& self.x <= point.x < self.x + self.width
        &&& self.y <= point.y < self.y + self.height
    }

    /// Whether the point lies inside the rectangle.
    #[verifier::when_used_as_spec(spec_contains)]
    pub fn contains(&self, point: Point) -> (inside: bool)
        ensures
            inside == self.spec_contains(point),
    {
        let px: i64 = point.x as i64;
        let py: i64 = point.y as i64;
        let left: i64 = self.x as i64;
        let top: i64 = self.y as i64;
        left <= px && px < left + self.width as i64 && top <= py && py < top + self.height as i64
    }
}

/// Alignment of the content relative to the viewport in one direction.
#[derive(Clone, Copy, Debug, PartialEq, Eq, Structural)]
pub enum Alignment {
    /// Content is aligned to the start of the viewport.
    Start,
    /// Content is aligned to the end of the viewport.
    End,
}

impl Default for Alignment {
    fn default() -> (alignment: Alignment)
        ensures
            alignment == Alignment::Start,
    {
        Alignment::Start
    }
}

/// Properties of one scrollbar.
#[derive(Clone, Copy, Debug, PartialEq, Eq, Structural)]
pub struct Properties {
    pub width: u32,
    pub margin: u32,
    pub scroller_width: u32,
    pub alignment: Alignment,
}

impl Default for Properties {
    fn default() -> (properties: Properties)
        ensures
            properties == (Properties {
                width: 10,
                margin: 0,
                scroller_width: 10,
                alignment: Alignment::Start,
            }),
    {
        Properties { width: 10, margin: 0, scroller_width: 10, alignment: Alignment::Start }
    }
}

impl Properties {
    /// The properties of a scrollbar of the usual size, aligned to the start.
    pub fn new() -> (properties: Properties)
        ensures
            properties == (Properties {
                width: 10,
                margin: 0,
                scroller_width: 10,
                alignment: Alignment::Start,
            }),
    {
        Properties { width: 10, margin: 0, scroller_width: 10, alignment: Alignment::Start }
    }

    /// Sets the width of the scrollbar's track; a negative width counts as 0.
    pub fn width(self, width: i32) -> (properties: Properties)
        ensures
            properties == (Properties { width: non_negative(width), ..self }),
    {
        Properties { width: clamp_to_size(width), ..self }
    }

    /// Sets the margin around the scrollbar; a negative margin counts as 0.
    pub fn margin(self, margin: i32) -> (properties: Properties)
        ensures
            properties == (Properties { margin: non_negative(margin), ..self }),
    {
        Properties { margin: clamp_to_size(margin), ..self }
    }

    /// Sets the width of the scrollbar's handle; a negative width counts as 0.
    pub fn scroller_width(self, scroller_width: i32) -> (properties: Properties)
        ensures
            properties == (Properties { scroller_width: non_negative(scroller_width), ..self }),
    {
        Properties { scroller_width: clamp_to_size(scroller_width), ..self }
    }

    /// Sets the alignment of the content along the scrollbar's axis.
    pub fn alignment(self, alignment: Alignment) -> (properties: Properties)
        ensures
            properties == (Properties { alignment, ..self }),
    {
        Properties { alignment, ..self }
    }

    /// The room that the scrollbar takes across its axis, without margin:
    /// the wider of track and handle.
    pub open spec fn thickness(self) -> int {
        if self.width >= self.scroller_width {
            self.width as int
        } else {
            self.scroller_width as int
        }
    }
}

/// A length as a size: itself, or 0 where it is negative.
pub open spec fn non_negative(length: i32) -> u32 {
    if length < 0 {
        0
    } else {
        length as u32
    }
}

fn clamp_to_size(length: i32) -> (size: u32)
    ensures
        size == non_negative(length),
{
    if length < 0 {
        0
    } else {
        length as u32
    }
}

/// The axes along which a region scrolls, with the properties of the
/// scrollbar of each.
#[derive(Clone, Copy, Debug, PartialEq, Eq, Structural)]
pub enum Direction {
    /// Vertical scrolling
    Vertical(Properties),
    /// Horizontal scrolling
    Horizontal(Properties),
    /// Both vertical and horizontal scrolling
    Both {
        /// The properties of the vertical scrollbar.
        vertical: Properties,
        /// The properties of the horizontal scrollbar.
        horizontal: Properties,
    },
}

impl Default for Direction {
    fn default() -> (direction: Direction)
        ensures
            direction == Direction::Vertical(
                Properties { width: 10, margin: 0, scroller_width: 10, alignment: Alignment::Start },
            ),
    {
        Direction::Vertical(Properties::new())
    }
}

impl Direction {
    /// The properties of the horizontal scrollbar, if the region scrolls
    /// horizontally.
    pub open spec fn spec_horizontal(&self) -> Option<Properties> {
        match *self {
            Direction::Horizontal(properties) => Some(properties),
            Direction::Both { horizontal, .. } => Some(horizontal),
            Direction::Vertical(_) => None,
        }
    }

    /// The properties of the vertical scrollbar, if the region scrolls
    /// vertically.
    pub open spec fn spec_vertical(&self) -> Option<Properties> {
        match *self {
            Direction::Vertical(properties) => Some(properties),
            Direction::Both { vertical, .. } => Some(vertical),
            Direction::Horizontal(_) => None,
        }
    }

    /// Returns the properties of the horizontal scrollbar, if any.
    #[verifier::when_used_as_spec(spec_horizontal)]
    pub fn horizontal(&self) -> (properties: Option<Properties>)
        ensures
            properties == self.spec_horizontal(),
    {
        match *self {
            Direction::Horizontal(properties) => Some(properties),
            Direction::Both { horizontal, .. } => Some(horizontal),
            Direction::Vertical(_) => None,
        }
    }

    /// Returns the properties of the vertical scrollbar, if any.
    #[verifier::when_used_as_spec(spec_vertical)]
    pub fn vertical(&self) -> (properties: Option<Properties>)
        ensures
            properties == self.spec_vertical(),
    {
        match *self {
            Direction::Vertical(properties) => Some(properties),
            Direction::Both { vertical, .. } => Some(vertical),
            Direction::Horizontal(_) => None,
        }
    }

    /// The alignment along the horizontal axis; the start where the region
    /// does not scroll horizontally.
    pub open spec fn horizontal_alignment(&self) -> Alignment {
        match self.spec_horizontal() {
            Some(properties) => properties.alignment,
            None => Alignment::Start,
        }
    }

    /// The alignment along the vertical axis; the start where the region
    /// does not scroll vertically.
    pub open spec fn vertical_alignment(&self) -> Alignment {
        match self.spec_vertical() {
            Some(properties) => properties.alignment,
            None => Alignment::Start,
        }
    }
}

} // verus!
