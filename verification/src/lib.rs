//! A resizable split pane: two panes separated by a draggable divider.
//!
//! The crate holds the arithmetic and the state machine of the widget. All
//! quantities are fixed-point integers (see [`length::UNIT`]); a host toolkit
//! feeds the events in and reads the pane sizes out.

pub mod dragger;
pub mod geometry;
pub mod laws;
pub mod length;
pub mod split;
pub mod view;

pub use dragger::{
    build_dragger_style, dragger_class, DraggerLayers, DraggerStyle, ResizeCursor, Rgb,
    SplitDraggerClass,
};
pub use geometry::{Point, Size, SplitOrientation};
pub use length::{Length, PaneLength, FULL, UNIT};
pub use split::{h_split, v_split, Split};
pub use view::{PaneStyle, SplitEvent, SplitView};
