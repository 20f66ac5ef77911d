//! The divider between the two panes: its style class and its base style.

use vstd::prelude::*;
use crate::geometry::SplitOrientation;
use crate::length::{Length, PaneLength, FULL};
use crate::view::SplitView;

verus! {

/// The style class of a divider, by which a host stylesheet reaches every
/// divider of one orientation.
#[derive(Clone, Copy, Debug, PartialEq, Eq, Structural)]
pub enum SplitDraggerClass {
    /// The divider of a horizontal split.
    Horizontal,
    /// The divider of a vertical split.
    Vertical,
}

/// The pointer shown over a divider.
#[derive(Clone, Copy, Debug, PartialEq, Eq, Structural)]
pub enum ResizeCursor {
    /// Resizing columns: the divider moves left and right.
    Col,
    /// Resizing rows: the divider moves up and down.
    Row,
}

/// An opaque colour.
#[derive(Clone, Copy, Debug, PartialEq, Eq, Structural)]
pub struct Rgb {
    pub r: u8,
    pub g: u8,
    pub b: u8,
}

/// The base style of a divider. A property that is `None` is not set.
#[derive(Clone, Copy, Debug, PartialEq, Eq)]
pub struct DraggerStyle {
    pub min_width: Option<Length>,
    pub width: Option<PaneLength>,
    pub min_height: Option<Length>,
    pub height: Option<PaneLength>,
    pub cursor: ResizeCursor,
    pub background: Rgb,
    pub border_color: Option<Rgb>,
    pub hover_background: Rgb,
    pub hover_border_color: Rgb,
}

/// The layers of a divider's style, lowest first: the base style, the
/// caller's override, and the caller's override for a drag, which applies
/// only while one is under way.
#[derive(Clone, Copy, Debug, PartialEq, Eq)]
pub struct DraggerLayers {
    pub base: DraggerStyle,
    pub dragging_override: bool,
}

/// The colour of a divider at rest.
pub open spec fn idle_colour() -> Rgb {
    Rgb { r: 205, g: 205, b: 205 }
}

/// The colour of a divider under the pointer or in a drag.
pub open spec fn active_colour() -> Rgb {
    Rgb { r: 41, g: 98, b: 218 }
}

/// The base style of a divider of thickness `size`: as thick as `size` along
/// the split axis and never thinner, filling the other axis, with the resize
/// cursor of its orientation; grey at rest, blue under the pointer, and blue
/// from the start where `dragging` holds.
pub open spec fn dragger_style_of(
    dragging: bool,
    size: i64,
    orientation: SplitOrientation,
) -> DraggerStyle {
    let thick = Some(PaneLength::Px(size));
    let least = Some(Length::Px(size));
    let full = Some(PaneLength::Pct(FULL));
    let horizontal = orientation == SplitOrientation::Horizontal;
    DraggerStyle {
        min_width: if horizontal { least } else { None },
        width: if horizontal { thick } else { full },
        min_height: if horizontal { None } else { least },
        height: if horizontal { full } else { thick },
        cursor: if horizontal { ResizeCursor::Col } else { ResizeCursor::Row },
        background: if dragging { active_colour() } else { idle_colour() },
        border_color: if dragging { Some(active_colour()) } else { None },
        hover_background: active_colour(),
        hover_border_color: active_colour(),
    }
}

/// The style class of the divider of a split of this orientation.
pub fn dragger_class(orientation: SplitOrientation) -> (r: SplitDraggerClass)
    ensures
        r == match orientation {
            SplitOrientation::Horizontal => SplitDraggerClass::Horizontal,
            SplitOrientation::Vertical => SplitDraggerClass::Vertical,
        },
{
    match orientation {
        SplitOrientation::Horizontal => SplitDraggerClass::Horizontal,
        SplitOrientation::Vertical => SplitDraggerClass::Vertical,
    }
}

/// Builds the base style of a divider.
pub fn build_dragger_style(dragging: bool, size: i64, orientation: SplitOrientation) -> (r:
    DraggerStyle)
    ensures
        r == dragger_style_of(dragging, size, orientation),
{
    let idle = Rgb { r: 205, g: 205, b: 205 };
    let active = Rgb { r: 41, g: 98, b: 218 };
    let mut style = DraggerStyle {
        min_width: None,
        width: None,
        min_height: None,
        height: None,
        cursor: ResizeCursor::Col,
        background: idle,
        border_color: None,
        hover_background: active,
        hover_border_color: active,
    };
    match orientation {
        SplitOrientation::Horizontal => {
            style.min_width = Some(Length::Px(size));
            style.width = Some(PaneLength::Px(size));
            style.height = Some(PaneLength::Pct(FULL));
            style.cursor = ResizeCursor::Col;
        },
        SplitOrientation::Vertical => {
            style.min_height = Some(Length::Px(size));
            style.height = Some(PaneLength::Px(size));
            style.width = Some(PaneLength::Pct(FULL));
            style.cursor = ResizeCursor::Row;
        },
    }
    if dragging {
        style.border_color = Some(active);
        style.background = active;
    }
    style
}

impl SplitView {
    /// The layers of the divider's style: the base style, built from the
    /// configuration, and whether the override for a drag applies now.
    pub fn dragger_layers(&self) -> (r: DraggerLayers)
        ensures
            r.base == dragger_style_of(
                self.config.dragging,
                self.config.dragger_size,
                self.config.orientation,
            ),
            r.dragging_override == self.dragging,
    {
        DraggerLayers {
            base: build_dragger_style(
                self.config.dragging,
                self.config.dragger_size,
                self.config.orientation,
            ),
            dragging_override: self.dragging,
        }
    }
}

} // verus!
