//! The configuration of a split, set up before the view is built.

use vstd::prelude::*;
use crate::geometry::{Size, SplitOrientation};
use crate::length::{Length, UNIT};

verus! {

/// The configuration of a split pane, with the state it starts in.
///
/// The minimum and the default length are independent of each other: a
/// default below the minimum is accepted as it is.
#[derive(Clone, Copy, Debug, PartialEq, Eq, Structural)]
pub struct Split {
    /// The least size of either pane.
    pub min_split: Length,
    /// The size of the first pane at the start and after a reset.
    pub default_split: Length,
    /// Whether a double click on the divider restores the default.
    pub reset_on_dbl_click: bool,
    /// Whether a drag stores a share of the container rather than pixels.
    pub dynamic: bool,
    /// The axis along which the panes are laid out.
    pub orientation: SplitOrientation,
    /// The container's size at the start.
    pub size: Size,
    /// The size of the first pane at the start.
    pub split_value: Length,
    /// Whether a drag is under way at the start.
    pub dragging: bool,
    /// The thickness of the divider, in raw pixels.
    pub dragger_size: i64,
}

impl Split {
    /// The configuration that `new` gives: a horizontal split in the middle,
    /// panes of at least 50 pixels, a divider of 4 pixels, dynamic, with
    /// reset on double click.
    pub open spec fn initial() -> Split {
        Split {
            min_split: Length::Px(50_000),
            default_split: Length::Pct(50_000),
            reset_on_dbl_click: true,
            dynamic: true,
            orientation: SplitOrientation::Horizontal,
            size: Size::zero(),
            split_value: Length::Pct(50_000),
            dragging: false,
            dragger_size: 4_000,
        }
    }

    /// A split with the default configuration.
    #[must_use]
    pub fn new() -> (r: Split)
        ensures
            r == Split::initial(),
    {
        Split {
            min_split: Length::px(50),
            default_split: Length::pct(50),
            reset_on_dbl_click: true,
            dynamic: true,
            orientation: SplitOrientation::Horizontal,
            size: Size { width: 0, height: 0 },
            split_value: Length::pct(50),
            dragging: false,
            dragger_size: 4 * UNIT,
        }
    }

    /// Sets the least size that a pane can be resized to.
    #[must_use]
    pub fn min_split(self, value: Length) -> (r: Split)
        ensures
            r == (Split { min_split: value, ..self }),
    {
        Split { min_split: value, ..self }
    }

    /// Sets the default size of the first pane, and its current size with it.
    #[must_use]
    pub fn default_split(self, value: Length) -> (r: Split)
        ensures
            r == (Split { default_split: value, split_value: value, ..self }),
    {
        Split { default_split: value, split_value: value, ..self }
    }

    /// Sets whether the split keeps its ratio when the container is resized.
    #[must_use]
    pub fn dynamic(self, value: bool) -> (r: Split)
        ensures
            r == (Split { dynamic: value, ..self }),
    {
        Split { dynamic: value, ..self }
    }

    /// Lays the panes out left and right.
    #[must_use]
    pub fn horizontal(self) -> (r: Split)
        ensures
            r == (Split { orientation: SplitOrientation::Horizontal, ..self }),
    {
        Split { orientation: SplitOrientation::Horizontal, ..self }
    }

    /// Lays the panes out top and bottom.
    #[must_use]
    pub fn vertical(self) -> (r: Split)
        ensures
            r == (Split { orientation: SplitOrientation::Vertical, ..self }),
    {
        Split { orientation: SplitOrientation::Vertical, ..self }
    }

    /// Turns off the reset on double click.
    #[must_use]
    pub fn disable_reset(self) -> (r: Split)
        ensures
            r == (Split { reset_on_dbl_click: false, ..self }),
    {
        Split { reset_on_dbl_click: false, ..self }
    }

    /// Sets the thickness of the divider, in raw pixels.
    #[must_use]
    pub fn dragger_size(self, size: i64) -> (r: Split)
        ensures
            r == (Split { dragger_size: size, ..self }),
    {
        Split { dragger_size: size, ..self }
    }
}

/// A vertical (top and bottom) split with the default configuration.
pub fn v_split() -> (r: Split)
    ensures
        r == (Split { orientation: SplitOrientation::Vertical, ..Split::initial() }),
{
    Split::new().vertical()
}

/// A horizontal (left and right) split with the default configuration.
pub fn h_split() -> (r: Split)
    ensures
        r == Split::initial(),
{
    Split::new()
}

} // verus!
