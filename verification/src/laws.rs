//! What holds of a split view across several events.

use vstd::prelude::*;
use crate::geometry::{Point, Size};
use crate::length::{
    lemma_percent_within_extent, lemma_share_exact, lemma_share_within_full, magnitude,
    percent_of, share_of, Length, PaneLength, FULL,
};
use crate::view::SplitView;

verus! {

/// Resizing the container never touches the split value or the drag state,
/// and resizing to the same size a second time changes nothing at all.
pub proof fn law_resize_is_idempotent(view: SplitView, size: Size)
    ensures
        view.resized(size).split_value == view.split_value,
        view.resized(size).dragging == view.dragging,
        view.resized(size).config == view.config,
        view.resized(size).resized(size) == view.resized(size),
{
}

/// In a dynamic split, a drag to a position inside the container stores the
/// position's share of the extent, and after any resize the first pane takes
/// that same share of the new extent.
pub proof fn law_dynamic_drag_keeps_ratio(view: SplitView, pos: Point, size: Size)
    requires
        view.dragging,
        view.config.dynamic,
        view.extent() > 0,
        0 <= pos.along(view.config.orientation) <= view.extent(),
        size.along(view.config.orientation) >= 0,
    ensures
        ({
            let ratio = share_of(pos.along(view.config.orientation) as int, view.extent() as int);
            let later = view.dragged_over(pos).resized(size);
            &&& 0 <= ratio <= FULL
            &&& later.split_value == Length::Pct(ratio as i64)
            &&& later.first_px() == percent_of(later.extent() as int, ratio)
            &&& 0 <= later.first_px() <= later.extent()
        }),
{
    let ratio = share_of(pos.along(view.config.orientation) as int, view.extent() as int);
    lemma_share_within_full(pos.along(view.config.orientation) as int, view.extent() as int);
    lemma_percent_within_extent(size.along(view.config.orientation) as int, ratio);
}

/// In a dynamic split, a drag to exactly `pct` raw percent of the extent
/// stores `pct`, and after any resize the first pane takes `pct` raw percent
/// of the new extent.
pub proof fn law_dynamic_drag_to_percent(view: SplitView, pos: Point, pct: i64, size: Size)
    requires
        view.dragging,
        view.config.dynamic,
        view.extent() > 0,
        0 <= pct <= FULL,
        pos.along(view.config.orientation) * FULL == pct * view.extent(),
        size.along(view.config.orientation) >= 0,
    ensures
        view.dragged_over(pos).resized(size).split_value == Length::Pct(pct),
        view.dragged_over(pos).resized(size).first_px() == size.along(view.config.orientation)
            * pct / (FULL as int),
{
    lemma_share_exact(
        pos.along(view.config.orientation) as int,
        view.extent() as int,
        pct as int,
    );
    lemma_percent_within_extent(size.along(view.config.orientation) as int, pct as int);
}

/// In a split that is not dynamic, a drag stores the pointer's coordinate in
/// pixels, and after any resize the first pane still takes exactly that many
/// pixels.
pub proof fn law_fixed_drag_keeps_pixels(view: SplitView, pos: Point, size: Size)
    requires
        view.dragging,
        !view.config.dynamic,
    ensures
        view.dragged_over(pos).split_value == Length::Px(pos.along(view.config.orientation)),
        view.dragged_over(pos).resized(size).first_px() == pos.along(view.config.orientation),
{
}

/// Wherever the container has an extent, the second pane is sized as a
/// percentage: one hundred percent less the magnitude of the first pane's
/// share of the extent, whether the first pane is given in pixels or in
/// percent. (A difference below the range of `i64` is held at its lower end.)
pub proof fn law_panes_are_complementary(view: SplitView)
    requires
        view.extent() != 0,
    ensures
        ({
            let rest = FULL - magnitude(share_of(view.first_px(), view.extent() as int));
            view.second_size() == PaneLength::Pct(
                if rest < i64::MIN {
                    i64::MIN
                } else {
                    rest as i64
                },
            )
        }),
{
}

/// Where the first pane lies inside a container with a positive extent, the
/// two panes' shares add up to one hundred percent.
pub proof fn law_shares_add_up(view: SplitView)
    requires
        view.extent() > 0,
        0 <= view.first_px() <= view.extent(),
    ensures
        ({
            let first = share_of(view.first_px(), view.extent() as int);
            &&& 0 <= first <= FULL
            &&& view.second_size() == PaneLength::Pct((FULL - first) as i64)
        }),
{
    lemma_share_within_full(view.first_px(), view.extent() as int);
}

/// A double click ends any drag. With reset enabled it restores the default
/// split; with reset disabled it leaves the split value alone.
pub proof fn law_double_click_resets(view: SplitView)
    ensures
        !view.double_clicked().dragging,
        view.config.reset_on_dbl_click ==> view.double_clicked().split_value
            == view.config.default_split,
        !view.config.reset_on_dbl_click ==> view.double_clicked().split_value
            == view.split_value,
        view.double_clicked().size == view.size,
        view.double_clicked().config == view.config,
{
}

/// While no drag is under way, a moving pointer changes nothing.
pub proof fn law_idle_pointer_is_ignored(view: SplitView, pos: Point)
    requires
        !view.dragging,
    ensures
        view.dragged_over(pos) == view,
{
}

} // verus!
