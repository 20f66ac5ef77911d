//! The split view: the state behind the two panes and their divider, the
//! events that change it, and the pane sizes that follow from it.

use vstd::prelude::*;
use crate::geometry::{Point, Size};
use crate::length::{complement, complement_of, saturate, share, share_of, Length, PaneLength};
use crate::split::Split;

verus! {

/// What the host reports to a split view.
#[derive(Clone, Copy, Debug, PartialEq, Eq, Structural)]
pub enum SplitEvent {
    /// The container was laid out with a new size.
    Resize(Size),
    /// A drag of the divider began.
    DragStart,
    /// A drag of the divider ended.
    DragEnd,
    /// The divider was double-clicked.
    DoubleClick,
    /// The pointer moved over the container, at this position.
    DragOver(Point),
}

/// The size constraints of one pane along the split axis.
#[derive(Clone, Copy, Debug, PartialEq, Eq, Structural)]
pub struct PaneStyle {
    /// The least size of the pane.
    pub min_size: Length,
    /// The size of the pane.
    pub size: PaneLength,
}

/// A built split: its configuration, fixed from here on, and the three cells
/// of state that the events change.
#[derive(Clone, Copy, Debug, PartialEq, Eq, Structural)]
pub struct SplitView {
    /// The configuration that the view was built from.
    pub config: Split,
    /// The container's current size.
    pub size: Size,
    /// The current size of the first pane.
    pub split_value: Length,
    /// Whether the divider is being dragged.
    pub dragging: bool,
}

impl Split {
    /// Builds the view, in the state that the configuration starts in.
    pub fn into_view(self) -> (v: SplitView)
        ensures
            v == (SplitView {
                config: self,
                size: self.size,
                split_value: self.split_value,
                dragging: self.dragging,
            }),
    {
        SplitView {
            config: self,
            size: self.size,
            split_value: self.split_value,
            dragging: self.dragging,
        }
    }
}

impl SplitView {
    /// The container's extent along the split axis.
    pub open spec fn extent(self) -> i64 {
        self.size.along(self.config.orientation)
    }

    /// The first pane's size in raw pixels.
    pub open spec fn first_px(self) -> int {
        self.split_value.resolved(self.extent() as int)
    }

    /// The split value that a pointer at `coordinate` along the split axis
    /// asks for: its share of the extent in a dynamic split, the coordinate
    /// itself otherwise. A dynamic split without extent has no share to
    /// give, and keeps the value it has.
    pub open spec fn pointed(self, coordinate: i64) -> Length {
        if !self.config.dynamic {
            Length::Px(coordinate)
        } else if self.extent() == 0 {
            self.split_value
        } else {
            Length::Pct(saturate(share_of(coordinate as int, self.extent() as int)) as i64)
        }
    }

    /// The view after the container took the size `size`.
    pub open spec fn resized(self, size: Size) -> SplitView {
        SplitView { size, ..self }
    }

    /// The view after a drag began.
    pub open spec fn drag_started(self) -> SplitView {
        SplitView { dragging: true, ..self }
    }

    /// The view after a drag ended.
    pub open spec fn drag_ended(self) -> SplitView {
        SplitView { dragging: false, ..self }
    }

    /// The view after a double click on the divider.
    pub open spec fn double_clicked(self) -> SplitView {
        SplitView {
            dragging: false,
            split_value: if self.config.reset_on_dbl_click {
                self.config.default_split
            } else {
                self.split_value
            },
            ..self
        }
    }

    /// The view after the pointer moved to `pos`.
    pub open spec fn dragged_over(self, pos: Point) -> SplitView {
        if self.dragging {
            SplitView { split_value: self.pointed(pos.along(self.config.orientation)), ..self }
        } else {
            self
        }
    }

    /// The view after `event`.
    pub open spec fn after(self, event: SplitEvent) -> SplitView {
        match event {
            SplitEvent::Resize(size) => self.resized(size),
            SplitEvent::DragStart => self.drag_started(),
            SplitEvent::DragEnd => self.drag_ended(),
            SplitEvent::DoubleClick => self.double_clicked(),
            SplitEvent::DragOver(pos) => self.dragged_over(pos),
        }
    }

    /// The size of the second pane: the share of the container that the
    /// first pane leaves, as a percentage. Without extent there is no share,
    /// and the size is left to the layout.
    pub open spec fn second_size(self) -> PaneLength {
        if self.extent() == 0 {
            PaneLength::Auto
        } else {
            PaneLength::Pct(complement_of(self.first_px(), self.extent() as int) as i64)
        }
    }

    /// Records the container's new size. Nothing else changes.
    pub fn on_resize(&mut self, size: Size)
        ensures
            *final(self) == old(self).resized(size),
    {
        self.size = size;
    }

    /// Starts a drag.
    pub fn on_drag_start(&mut self)
        ensures
            *final(self) == old(self).drag_started(),
    {
        self.dragging = true;
    }

    /// Ends a drag.
    pub fn on_drag_end(&mut self)
        ensures
            *final(self) == old(self).drag_ended(),
    {
        self.dragging = false;
    }

    /// Ends any drag and, where the configuration asks for it, restores the
    /// default split.
    pub fn on_double_click(&mut self)
        ensures
            *final(self) == old(self).double_clicked(),
            !final(self).dragging,
            old(self).config.reset_on_dbl_click ==> final(self).split_value == old(
                self,
            ).config.default_split,
            !old(self).config.reset_on_dbl_click ==> final(self).split_value == old(
                self,
            ).split_value,
    {
        self.dragging = false;
        if self.config.reset_on_dbl_click {
            self.split_value = self.config.default_split;
        }
    }

    /// Moves the split to the pointer while a drag is under way, and ignores
    /// the pointer otherwise.
    pub fn on_drag_over(&mut self, pos: Point)
        ensures
            *final(self) == old(self).dragged_over(pos),
            !old(self).dragging ==> *final(self) == *old(self),
    {
        if self.dragging {
            let coordinate: i64 = pos.coordinate(self.config.orientation);
            if !self.config.dynamic {
                self.split_value = Length::Px(coordinate);
            } else {
                let extent: i64 = self.size.extent(self.config.orientation);
                match share(coordinate, extent) {
                    Some(ratio) => {
                        self.split_value = Length::Pct(ratio);
                    },
                    None => {},
                }
            }
        }
    }

    /// Applies one event.
    pub fn handle(&mut self, event: SplitEvent)
        ensures
            *final(self) == old(self).after(event),
    {
        match event {
            SplitEvent::Resize(size) => self.on_resize(size),
            SplitEvent::DragStart => self.on_drag_start(),
            SplitEvent::DragEnd => self.on_drag_end(),
            SplitEvent::DoubleClick => self.on_double_click(),
            SplitEvent::DragOver(pos) => self.on_drag_over(pos),
        }
    }

    /// The first pane's size in raw pixels, at the container's current size.
    pub fn pane_a_px(&self) -> (r: i64)
        ensures
            r == self.first_px(),
    {
        self.split_value.resolve(self.size.extent(self.config.orientation))
    }

    /// The first pane's constraints: the configured minimum, and the split
    /// value as it is stored.
    pub fn pane_a_style(&self) -> (r: PaneStyle)
        ensures
            r.min_size == self.config.min_split,
            r.size == match self.split_value {
                Length::Px(x) => PaneLength::Px(x),
                Length::Pct(p) => PaneLength::Pct(p),
            },
    {
        PaneStyle { min_size: self.config.min_split, size: self.split_value.to_pane_length() }
    }

    /// The second pane's constraints: the configured minimum, and the share
    /// that the first pane leaves.
    pub fn pane_b_style(&self) -> (r: PaneStyle)
        ensures
            r.min_size == self.config.min_split,
            r.size == self.second_size(),
    {
        let extent: i64 = self.size.extent(self.config.orientation);
        let size: PaneLength = match complement(self.split_value.resolve(extent), extent) {
            Some(rest) => PaneLength::Pct(rest),
            None => PaneLength::Auto,
        };
        PaneStyle { min_size: self.config.min_split, size }
    }
}

} // verus!
