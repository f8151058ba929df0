use vstd::prelude::*;
use crate::types::standard_unit::StandardUnit;

verus! {

/// The measured geometry of a container: where it starts in the document and
/// how large it is.
#[derive(Debug, Clone, Copy, PartialEq, Eq, Structural)]
pub struct ContainerDimensions {
    pub offset_left: StandardUnit,
    pub offset_top: StandardUnit,
    pub width: StandardUnit,
    pub height: StandardUnit,
}

impl Default for ContainerDimensions {
    fn default() -> (dimensions: Self)
        ensures
            dimensions == ContainerDimensions::zero(),
    {
        ContainerDimensions { offset_left: 0, offset_top: 0, width: 0, height: 0 }
    }
}

impl ContainerDimensions {
    /// The all-zero geometry of a container that has not been laid out.
    pub open spec fn zero() -> ContainerDimensions {
        ContainerDimensions { offset_left: 0, offset_top: 0, width: 0, height: 0 }
    }
}

/// `value` brought into the closed interval from `low` to `high`.
pub open spec fn clamp(value: int, low: int, high: int) -> int {
    if value < low {
        low
    } else if value > high {
        high
    } else {
        value
    }
}

/// Where an element of size `element` lands on an axis of the canvas when its
/// centre is put at the absolute coordinate `absolute`: the distance from the
/// container's start, kept inside the container.
pub open spec fn relative_position(absolute: int, offset: int, extent: int, element: int) -> int {
    clamp(absolute - offset - element / 2, 0, extent - element)
}

/// A point, in the document or on the canvas.
#[derive(Debug, Clone, Copy, PartialEq, Eq, Structural)]
pub struct Position {
    pub x: StandardUnit,
    pub y: StandardUnit,
}

/// The coordinate frame of the canvas.
#[derive(Debug, Clone, Copy, PartialEq, Eq, Structural)]
pub struct Viewport {
    pub dimensions: ContainerDimensions,
}

impl Viewport {
    /// Whether the container has been laid out, so that coordinates computed
    /// in this frame mean something.
    pub open spec fn ready(&self) -> bool {
        self.dimensions.width > 0 && self.dimensions.height > 0
    }

    /// Whether an element of the given size fits into the container.
    pub open spec fn fits(&self, element_width: int, element_height: int) -> bool {
        &&& 0 <= element_width <= self.dimensions.width
        &&& 0 <= element_height <= self.dimensions.height
    }

    /// The frame of a container as it was measured; the all-zero frame when
    /// the container is not mounted and nothing could be measured.
    pub fn new(measured: Option<ContainerDimensions>) -> (viewport: Self)
        ensures
            viewport.dimensions == match measured {
                Some(dimensions) => dimensions,
                None => ContainerDimensions::zero(),
            },
    {
        match measured {
            Some(dimensions) => Viewport { dimensions },
            None => Viewport { dimensions: ContainerDimensions::default() },
        }
    }

    /// Whether the container has been laid out.
    pub fn is_ready(&self) -> (ready: bool)
        ensures
            ready == self.ready(),
    {
        self.dimensions.width > 0 && self.dimensions.height > 0
    }

    /// Whether an element of the given size fits into the container.
    pub fn can_hold(&self, element_width: StandardUnit, element_height: StandardUnit) -> (fits: bool)
        ensures
            fits == self.fits(element_width as int, element_height as int),
    {
        0 <= element_width && element_width <= self.dimensions.width && 0 <= element_height
            && element_height <= self.dimensions.height
    }

    /// The canvas point under a point of the document.
    pub open spec fn canvas_point(&self, absolute: Position) -> Position {
        Position {
            x: relative_position(
                absolute.x as int,
                self.dimensions.offset_left as int,
                self.dimensions.width as int,
                0,
            ) as StandardUnit,
            y: relative_position(
                absolute.y as int,
                self.dimensions.offset_top as int,
                self.dimensions.height as int,
                0,
            ) as StandardUnit,
        }
    }

    /// Translates a point of the document into the canvas: each coordinate
    /// by itself, as for an element without size.
    pub fn relative_pos_from_abs(&self, absolute: Position) -> (relative: Position)
        requires
            self.fits(0, 0),
        ensures
            relative == self.canvas_point(absolute),
            0 <= relative.x <= self.dimensions.width,
            0 <= relative.y <= self.dimensions.height,
    {
        Position {
            x: self.relative_x_pos_from_abs(absolute.x, None),
            y: self.relative_y_pos_from_abs(absolute.y, None),
        }
    }

    /// Get x position relative to viewport of any element.
    ///
    /// The element is centred on `abs_x` and then kept inside the container,
    /// so the result never leaves `0 ..= width - element_width`.
    pub fn relative_x_pos_from_abs(
        &self,
        abs_x: StandardUnit,
        element_width: Option<StandardUnit>,
    ) -> (x: StandardUnit)
        requires
            0 <= element_size(element_width) <= self.dimensions.width,
        ensures
            x == relative_position(
                abs_x as int,
                self.dimensions.offset_left as int,
                self.dimensions.width as int,
                element_size(element_width),
            ),
            0 <= x <= self.dimensions.width - element_size(element_width),
    {
        let element_width: StandardUnit = match element_width {
            Some(width) => width,
            None => 0,
        };
        place_on_axis(abs_x, self.dimensions.offset_left, self.dimensions.width, element_width)
    }

    /// Get y position relative to viewport of any element.
    ///
    /// The element is centred on `abs_y` and then kept inside the container,
    /// so the result never leaves `0 ..= height - element_height`.
    pub fn relative_y_pos_from_abs(
        &self,
        abs_y: StandardUnit,
        element_height: Option<StandardUnit>,
    ) -> (y: StandardUnit)
        requires
            0 <= element_size(element_height) <= self.dimensions.height,
        ensures
            y == relative_position(
                abs_y as int,
                self.dimensions.offset_top as int,
                self.dimensions.height as int,
                element_size(element_height),
            ),
            0 <= y <= self.dimensions.height - element_size(element_height),
    {
        let element_height: StandardUnit = match element_height {
            Some(height) => height,
            None => 0,
        };
        place_on_axis(abs_y, self.dimensions.offset_top, self.dimensions.height, element_height)
    }
}

/// The size that an optional element size stands for: a missing one is a
/// point, of size zero.
pub open spec fn element_size(size: Option<StandardUnit>) -> int {
    match size {
        Some(size) => size as int,
        None => 0,
    }
}

/// Computes [`relative_position`] without overflow, whatever the absolute
/// coordinate and the offset are.
fn place_on_axis(
    absolute: StandardUnit,
    offset: StandardUnit,
    extent: StandardUnit,
    element: StandardUnit,
) -> (position: StandardUnit)
    requires
        0 <= element <= extent,
    ensures
        position == relative_position(absolute as int, offset as int, extent as int, element as int),
        0 <= position <= extent - element,
{
    let centred: i128 = absolute as i128 - offset as i128 - (element / 2) as i128;
    let high: StandardUnit = extent - element;
    if centred < 0 {
        0
    } else if centred > high as i128 {
        high
    } else {
        centred as StandardUnit
    }
}

} // verus!
