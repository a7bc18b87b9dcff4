//! What a chart reads of a series, and the colour it may be painted on.

use crate::range::Range;
use vstd::prelude::*;

verus! {

/// A colour of three channels.
#[derive(Clone, Copy, Debug, PartialEq, Eq, Structural)]
pub struct Color {
    pub r: u8,
    pub g: u8,
    pub b: u8,
}

/// One plotted dataset, as far as a chart reads it: how far its data reaches
/// along each axis. An axis on which it has no data has no extent.
#[derive(Clone, Copy, Debug, PartialEq, Eq, Structural)]
pub struct Series2d {
    pub x_extent: Option<Range>,
    pub y_extent: Option<Range>,
}

impl Series2d {
    /// The extent of the data along the x axis, if the series has any.
    pub fn x_range(&self) -> (r: Option<Range>)
        ensures
            r == self.x_extent,
    {
        self.x_extent
    }

    /// The extent of the data along the y axis, if the series has any.
    pub fn y_range(&self) -> (r: Option<Range>)
        ensures
            r == self.y_extent,
    {
        self.y_extent
    }
}

/// The x extents of the series, in their order.
pub open spec fn x_extents(series: Seq<Series2d>) -> Seq<Option<Range>> {
    Seq::new(series.len(), |i: int| series[i].x_extent)
}

/// The y extents of the series, in their order.
pub open spec fn y_extents(series: Seq<Series2d>) -> Seq<Option<Range>> {
    Seq::new(series.len(), |i: int| series[i].y_extent)
}

} // verus!
