use floem_split::{
    h_split, v_split, Length, PaneLength, PaneStyle, Point, Size, SplitEvent, SplitView,
};

fn sized(split: floem_split::Split, width: i64, height: i64) -> SplitView {
    let mut v = split.into_view();
    v.on_resize(Size { width, height });
    v
}

#[test]
fn resize_records_the_size_and_nothing_else() {
    let mut v = h_split().into_view();
    let before = v;
    v.on_resize(Size { width: 1_000_000, height: 600_000 });
    assert_eq!(v.size, Size { width: 1_000_000, height: 600_000 });
    assert_eq!(v.split_value, before.split_value);
    assert_eq!(v.dragging, before.dragging);
    assert_eq!(v.config, before.config);
}

#[test]
fn resize_to_the_same_size_twice_changes_nothing() {
    let mut v = h_split().default_split(Length::pct(35)).into_view();
    v.on_resize(Size { width: 800_000, height: 300_000 });
    let once = v;
    v.on_resize(Size { width: 800_000, height: 300_000 });
    assert_eq!(v, once);
    assert_eq!(v.split_value, Length::Pct(35_000));
}

#[test]
fn drag_start_and_end_toggle_the_flag() {
    let mut v = h_split().into_view();
    assert!(!v.dragging);
    v.on_drag_start();
    assert!(v.dragging);
    v.on_drag_start();
    assert!(v.dragging);
    v.on_drag_end();
    assert!(!v.dragging);
    v.on_drag_end();
    assert!(!v.dragging);
    assert_eq!(v, h_split().into_view());
}

#[test]
fn dynamic_drag_stores_the_share_of_the_extent() {
    let mut v = sized(h_split(), 1_000_000, 600_000);
    v.on_drag_start();
    v.on_drag_over(Point { x: 300_000, y: 599_000 });
    assert_eq!(v.split_value, Length::Pct(30_000));
    v.on_drag_over(Point { x: 1, y: 0 });
    assert_eq!(v.split_value, Length::Pct(0));
    v.on_drag_over(Point { x: 10, y: 0 });
    assert_eq!(v.split_value, Length::Pct(1));
    v.on_drag_over(Point { x: -10, y: 0 });
    assert_eq!(v.split_value, Length::Pct(-1));
    v.on_drag_over(Point { x: 1_500_000, y: 0 });
    assert_eq!(v.split_value, Length::Pct(150_000));
}

#[test]
fn dynamic_drag_keeps_the_ratio_across_a_resize() {
    let mut v = sized(h_split(), 1_000_000, 600_000);
    v.on_drag_start();
    v.on_drag_over(Point { x: 300_000, y: 0 });
    v.on_drag_end();
    assert_eq!(v.pane_a_px(), 300_000);
    v.on_resize(Size { width: 500_000, height: 600_000 });
    assert_eq!(v.split_value, Length::Pct(30_000));
    assert_eq!(v.pane_a_px(), 150_000);
    assert_eq!(v.pane_b_style().size, PaneLength::Pct(70_000));
    v.on_resize(Size { width: 2_000_000, height: 600_000 });
    assert_eq!(v.pane_a_px(), 600_000);
}

#[test]
fn fixed_drag_stores_the_pixels() {
    let mut v = sized(h_split().dynamic(false), 1_000_000, 600_000);
    v.on_drag_start();
    v.on_drag_over(Point { x: 120_000, y: 77 });
    assert_eq!(v.split_value, Length::Px(120_000));
    v.on_drag_over(Point { x: -3, y: 77 });
    assert_eq!(v.split_value, Length::Px(-3));
}

#[test]
fn fixed_drag_keeps_the_pixels_across_a_resize() {
    let mut v = sized(h_split().dynamic(false), 1_000_000, 600_000);
    v.on_drag_start();
    v.on_drag_over(Point { x: 120_000, y: 0 });
    v.on_drag_end();
    for width in [500_000_i64, 120_000, 2_000_000, 1, 0] {
        v.on_resize(Size { width, height: 600_000 });
        assert_eq!(v.split_value, Length::Px(120_000));
        assert_eq!(v.pane_a_px(), 120_000);
    }
}

#[test]
fn vertical_split_measures_along_the_height() {
    let mut v = sized(v_split(), 1_000_000, 600_000);
    v.on_drag_start();
    v.on_drag_over(Point { x: 999_000, y: 150_000 });
    assert_eq!(v.split_value, Length::Pct(25_000));
    assert_eq!(v.pane_a_px(), 150_000);
    assert_eq!(v.pane_b_style().size, PaneLength::Pct(75_000));

    let mut w = sized(v_split().dynamic(false), 1_000_000, 600_000);
    w.on_drag_start();
    w.on_drag_over(Point { x: 999_000, y: 150_000 });
    assert_eq!(w.split_value, Length::Px(150_000));
}

#[test]
fn drag_over_without_a_drag_is_ignored() {
    let mut v = sized(h_split(), 1_000_000, 600_000);
    let before = v;
    v.on_drag_over(Point { x: 300_000, y: 0 });
    assert_eq!(v, before);

    let mut w = sized(h_split().dynamic(false), 1_000_000, 600_000);
    let before = w;
    w.on_drag_over(Point { x: 300_000, y: 0 });
    assert_eq!(w, before);

    // after the drag has ended, too
    w.on_drag_start();
    w.on_drag_over(Point { x: 10_000, y: 0 });
    w.on_drag_end();
    let ended = w;
    w.on_drag_over(Point { x: 900_000, y: 0 });
    assert_eq!(w, ended);
    assert_eq!(w.split_value, Length::Px(10_000));
}

#[test]
fn dynamic_drag_without_extent_keeps_the_split() {
    let mut v = h_split().default_split(Length::pct(35)).into_view();
    v.on_drag_start();
    v.on_drag_over(Point { x: 300_000, y: 0 });
    assert_eq!(v.split_value, Length::Pct(35_000));
    assert!(v.dragging);
}

#[test]
fn fixed_drag_without_extent_stores_the_pixels() {
    let mut v = h_split().dynamic(false).into_view();
    v.on_drag_start();
    v.on_drag_over(Point { x: 300_000, y: 0 });
    assert_eq!(v.split_value, Length::Px(300_000));
}

#[test]
fn dynamic_drag_far_outside_saturates() {
    let mut v = sized(h_split(), 1, 1);
    v.on_drag_start();
    v.on_drag_over(Point { x: i64::MAX, y: 0 });
    assert_eq!(v.split_value, Length::Pct(i64::MAX));
    v.on_drag_over(Point { x: i64::MIN, y: 0 });
    assert_eq!(v.split_value, Length::Pct(i64::MIN));
}

#[test]
fn double_click_with_reset_restores_the_default() {
    let mut v = sized(h_split().default_split(Length::pct(35)), 1_000_000, 600_000);
    v.on_drag_start();
    v.on_drag_over(Point { x: 700_000, y: 0 });
    assert_eq!(v.split_value, Length::Pct(70_000));
    v.on_double_click();
    assert!(!v.dragging);
    assert_eq!(v.split_value, Length::Pct(35_000));
    assert_eq!(v.size, Size { width: 1_000_000, height: 600_000 });

    // from rest as well
    v.on_drag_start();
    v.on_drag_over(Point { x: 100_000, y: 0 });
    v.on_drag_end();
    v.on_double_click();
    assert!(!v.dragging);
    assert_eq!(v.split_value, Length::Pct(35_000));
}

#[test]
fn double_click_resets_whether_dynamic_or_not() {
    let mut v = sized(h_split().dynamic(false).default_split(Length::px(200)), 1_000_000, 1);
    v.on_drag_start();
    v.on_drag_over(Point { x: 700_000, y: 0 });
    v.on_double_click();
    assert_eq!(v.split_value, Length::Px(200_000));
    assert!(!v.dragging);
}

#[test]
fn double_click_without_reset_only_ends_the_drag() {
    let mut v = sized(h_split().disable_reset(), 1_000_000, 600_000);
    v.on_drag_start();
    v.on_drag_over(Point { x: 700_000, y: 0 });
    v.on_double_click();
    assert!(!v.dragging);
    assert_eq!(v.split_value, Length::Pct(70_000));
    v.on_double_click();
    assert!(!v.dragging);
    assert_eq!(v.split_value, Length::Pct(70_000));
}

#[test]
fn handle_applies_each_event_as_its_method_does() {
    let events = [
        SplitEvent::Resize(Size { width: 1_000_000, height: 600_000 }),
        SplitEvent::DragOver(Point { x: 1, y: 2 }),
        SplitEvent::DragStart,
        SplitEvent::DragOver(Point { x: 250_000, y: 2 }),
        SplitEvent::Resize(Size { width: 400_000, height: 600_000 }),
        SplitEvent::DragOver(Point { x: 300_000, y: 2 }),
        SplitEvent::DragEnd,
        SplitEvent::DragOver(Point { x: 1, y: 2 }),
        SplitEvent::DoubleClick,
    ];
    let mut by_handle = h_split().default_split(Length::pct(35)).into_view();
    let mut by_method = by_handle;
    let mut seen = Vec::new();
    for e in events {
        by_handle.handle(e);
        match e {
            SplitEvent::Resize(s) => by_method.on_resize(s),
            SplitEvent::DragStart => by_method.on_drag_start(),
            SplitEvent::DragEnd => by_method.on_drag_end(),
            SplitEvent::DoubleClick => by_method.on_double_click(),
            SplitEvent::DragOver(p) => by_method.on_drag_over(p),
        }
        assert_eq!(by_handle, by_method);
        seen.push((by_handle.split_value, by_handle.dragging));
    }
    assert_eq!(
        seen,
        vec![
            (Length::Pct(35_000), false),
            (Length::Pct(35_000), false),
            (Length::Pct(35_000), true),
            (Length::Pct(25_000), true),
            (Length::Pct(25_000), true),
            (Length::Pct(75_000), true),
            (Length::Pct(75_000), false),
            (Length::Pct(75_000), false),
            (Length::Pct(35_000), false),
        ]
    );
}

#[test]
fn pane_a_takes_the_split_value_as_it_is_stored() {
    let v = sized(h_split().min_split(Length::px(100)), 1_000_000, 600_000);
    assert_eq!(
        v.pane_a_style(),
        PaneStyle { min_size: Length::Px(100_000), size: PaneLength::Pct(50_000) }
    );
    let w = sized(h_split().default_split(Length::px(120)), 1_000_000, 600_000);
    assert_eq!(
        w.pane_a_style(),
        PaneStyle { min_size: Length::Px(50_000), size: PaneLength::Px(120_000) }
    );
}

#[test]
fn pane_b_takes_the_rest_as_a_percentage() {
    let v = sized(h_split().default_split(Length::px(250)), 1_000_000, 600_000);
    assert_eq!(
        v.pane_b_style(),
        PaneStyle { min_size: Length::Px(50_000), size: PaneLength::Pct(75_000) }
    );
    let w = sized(h_split().default_split(Length::pct(40)), 1_000_000, 600_000);
    assert_eq!(w.pane_b_style().size, PaneLength::Pct(60_000));
    assert_eq!(w.pane_a_px() * 100_000 / 1_000_000 + 60_000, 100_000);
}

#[test]
fn pane_b_takes_the_magnitude_of_a_negative_share() {
    let v = sized(h_split().default_split(Length::px(-250)), 1_000_000, 600_000);
    assert_eq!(v.pane_b_style().size, PaneLength::Pct(75_000));
    let w = sized(h_split().default_split(Length::px(250)), -1_000_000, 600_000);
    assert_eq!(w.pane_b_style().size, PaneLength::Pct(75_000));
}

#[test]
fn pane_b_without_extent_is_left_to_the_layout() {
    let v = h_split().into_view();
    assert_eq!(
        v.pane_b_style(),
        PaneStyle { min_size: Length::Px(50_000), size: PaneLength::Auto }
    );
    let w = sized(h_split().default_split(Length::px(10)), 0, 600_000);
    assert_eq!(w.pane_b_style().size, PaneLength::Auto);
    // the height has no part in a horizontal split
    let x = sized(h_split(), 600_000, 0);
    assert_eq!(x.pane_b_style().size, PaneLength::Pct(50_000));
}

#[test]
fn default_of_35_percent_at_1000_by_600() {
    let v = sized(h_split().default_split(Length::pct(35)), 1_000_000, 600_000);
    assert_eq!(v.pane_a_style().size, PaneLength::Pct(35_000));
    assert_eq!(v.pane_a_px(), 350_000);
    assert_eq!(v.pane_b_style().size, PaneLength::Pct(65_000));
}

#[test]
fn fixed_drag_to_120_then_resize_to_500() {
    let mut v = sized(h_split().dynamic(false).min_split(Length::px(100)), 1_000_000, 600_000);
    v.on_drag_start();
    v.on_drag_over(Point { x: 120_000, y: 0 });
    assert_eq!(v.split_value, Length::Px(120_000));
    v.on_resize(Size { width: 500_000, height: 600_000 });
    assert_eq!(v.pane_a_px(), 120_000);
    assert_eq!(
        v.pane_a_style(),
        PaneStyle { min_size: Length::Px(100_000), size: PaneLength::Px(120_000) }
    );
    assert_eq!(
        v.pane_b_style(),
        PaneStyle { min_size: Length::Px(100_000), size: PaneLength::Pct(76_000) }
    );
}
