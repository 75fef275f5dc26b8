use scroll_layout::scroll::{auto_scroll, custom_scroll, scroll_axis};
use scroll_layout::{
    Alignment, ArrangeStep, Constraint, ContentChild, DirtySize, Point, Rectangle, ScrollLayout,
    ScrollMode, ScrollViewerMode, Size, Thickness, Visibility, UNBOUNDED,
};

fn no_margin() -> Thickness {
    Thickness { left: 0, top: 0, right: 0, bottom: 0 }
}

fn viewport() -> Constraint {
    Constraint { width: 100, height: 100 }
}

fn content(width: u32, height: u32) -> ContentChild {
    ContentChild {
        size: Some(Size { width, height }),
        horizontal_alignment: Alignment::Start,
        vertical_alignment: Alignment::Start,
        margin: no_margin(),
    }
}

fn dirty_layout() -> ScrollLayout {
    let mut l = ScrollLayout::new();
    l.measure(Visibility::Visible, Alignment::Start, Alignment::Start, viewport(), &vec![true], Point { x: 0, y: 0 });
    l
}

fn begin(l: &mut ScrollLayout, mode: ScrollViewerMode) -> (Size, Size) {
    match l.arrange_begin(
        Visibility::Visible,
        Size { width: 100, height: 100 },
        Alignment::Start,
        Alignment::Start,
        no_margin(),
        viewport(),
        mode,
    ) {
        ArrangeStep::Content { size, available } => (size, available),
        ArrangeStep::Done(s) => panic!("arrange stopped early at {:?}", s),
    }
}

#[test]
fn drag_within_range_moves_content() {
    let mode = ScrollViewerMode { horizontal: ScrollMode::Auto, vertical: ScrollMode::Disabled };
    let mut l = dirty_layout();
    let (size, available) = begin(&mut l, mode);
    assert_eq!(size, Size { width: 100, height: 100 });
    assert_eq!(available, Size { width: UNBOUNDED, height: 100 });
    let p = l.arrange_content(size, mode, Point { x: 0, y: 0 }, Point { x: -40, y: 0 }, content(300, 50));
    assert_eq!(p.offset, Point { x: -60, y: 0 });
    assert_eq!(p.bounds, Rectangle { x: -60, y: 0, width: 300, height: 50 });
    assert_eq!(l.old_child_size, Size { width: 300, height: 50 });
}

#[test]
fn drag_past_edge_is_clamped() {
    let mode = ScrollViewerMode { horizontal: ScrollMode::Auto, vertical: ScrollMode::Disabled };
    let mut l = dirty_layout();
    let (size, _) = begin(&mut l, mode);
    let p = l.arrange_content(size, mode, Point { x: 0, y: 0 }, Point { x: -400, y: 0 }, content(300, 50));
    assert_eq!(p.offset, Point { x: -200, y: 0 });
    assert_eq!(p.bounds, Rectangle { x: -200, y: 0, width: 300, height: 50 });
}

#[test]
fn fitting_content_sits_at_origin() {
    let mode = ScrollViewerMode { horizontal: ScrollMode::Auto, vertical: ScrollMode::Auto };
    let mut l = dirty_layout();
    let (size, available) = begin(&mut l, mode);
    assert_eq!(available, Size { width: UNBOUNDED, height: UNBOUNDED });
    let p = l.arrange_content(size, mode, Point { x: -30, y: -30 }, Point { x: 0, y: 0 }, content(80, 50));
    assert_eq!(p.bounds, Rectangle { x: 0, y: 0, width: 80, height: 50 });
}

#[test]
fn collapsed_container_takes_no_space() {
    let mut l = dirty_layout();
    let d = l.measure(Visibility::Collapsed, Alignment::Start, Alignment::Start, viewport(), &vec![], Point { x: 0, y: 0 });
    assert_eq!((d.width, d.height), (0, 0));
    assert!(!ScrollLayout::visits_children(Visibility::Collapsed));
    assert!(ScrollLayout::visits_children(Visibility::Hidden));
    let step = l.arrange_begin(
        Visibility::Collapsed,
        Size { width: 100, height: 100 },
        Alignment::Start,
        Alignment::Start,
        no_margin(),
        viewport(),
        ScrollViewerMode { horizontal: ScrollMode::Auto, vertical: ScrollMode::Auto },
    );
    assert_eq!(step, ArrangeStep::Done(Size { width: 0, height: 0 }));
}

#[test]
fn second_arrange_does_nothing() {
    let mode = ScrollViewerMode { horizontal: ScrollMode::Auto, vertical: ScrollMode::Disabled };
    let mut l = dirty_layout();
    let (size, _) = begin(&mut l, mode);
    l.arrange_content(size, mode, Point { x: 0, y: 0 }, Point { x: -40, y: 0 }, content(300, 50));
    l.arrange_end();
    assert!(!l.desired_size.dirty);
    let step = l.arrange_begin(
        Visibility::Visible,
        Size { width: 100, height: 100 },
        Alignment::Start,
        Alignment::Start,
        no_margin(),
        viewport(),
        mode,
    );
    assert_eq!(step, ArrangeStep::Done(size));
    assert!(!l.desired_size.dirty);
}

#[test]
fn dirty_child_marks_container_dirty() {
    let mut l = ScrollLayout::new();
    let d = l.measure(
        Visibility::Visible,
        Alignment::Stretch,
        Alignment::Stretch,
        viewport(),
        &vec![false, true, false],
        Point { x: 0, y: 0 },
    );
    assert_eq!(d, DirtySize { width: 100, height: 100, dirty: true });
    let mut outer = ScrollLayout::new();
    let o = outer.measure(
        Visibility::Visible,
        Alignment::Stretch,
        Alignment::Stretch,
        viewport(),
        &vec![d.dirty],
        Point { x: 0, y: 0 },
    );
    assert!(o.dirty);
}

#[test]
fn clean_children_and_same_offset_stay_clean() {
    let mut l = ScrollLayout::new();
    l.arrange_end();
    let d = l.measure(
        Visibility::Visible,
        Alignment::Stretch,
        Alignment::Stretch,
        viewport(),
        &vec![false, false],
        Point { x: 0, y: 0 },
    );
    assert_eq!(d, DirtySize { width: 100, height: 100, dirty: false });
    let moved = l.measure(
        Visibility::Visible,
        Alignment::Stretch,
        Alignment::Stretch,
        viewport(),
        &vec![false],
        Point { x: -1, y: 0 },
    );
    assert!(moved.dirty);
    assert_eq!(l.old_offset, Point { x: -1, y: 0 });
}

#[test]
fn alignment_change_marks_dirty() {
    let mut l = ScrollLayout::new();
    let d = l.measure(Visibility::Visible, Alignment::Center, Alignment::Stretch, viewport(), &vec![], Point { x: 0, y: 0 });
    assert!(d.dirty);
}

#[test]
fn constraint_fixes_desired_size() {
    let mut l = ScrollLayout::new();
    let d = l.measure(
        Visibility::Visible,
        Alignment::Stretch,
        Alignment::Stretch,
        Constraint { width: 120, height: 0 },
        &vec![],
        Point { x: 0, y: 0 },
    );
    assert_eq!((d.width, d.height), (120, 0));
}

#[test]
fn custom_mode_keeps_content_in_range() {
    assert_eq!(custom_scroll(-50, 300, 100, 300), -50);
    assert_eq!(custom_scroll(-50, 300, 100, 250), 0);
    assert_eq!(custom_scroll(-150, 300, 100, 200), -50);
    assert_eq!(custom_scroll(-50, 300, 100, 80), 0);
    assert_eq!(custom_scroll(-50, 300, 100, 100), 0);
}

#[test]
fn custom_mode_follows_content_growth() {
    let mode = ScrollViewerMode { horizontal: ScrollMode::Custom, vertical: ScrollMode::Custom };
    let mut l = dirty_layout();
    l.old_child_size = Size { width: 300, height: 300 };
    let (size, _) = begin(&mut l, mode);
    let p = l.arrange_content(size, mode, Point { x: -20, y: -20 }, Point { x: 5, y: 5 }, content(400, 50));
    assert_eq!(p.offset, Point { x: -120, y: 0 });
    assert_eq!(p.bounds, Rectangle { x: -120, y: 0, width: 400, height: 50 });
}

#[test]
fn auto_mode_formula() {
    assert_eq!(auto_scroll(-10, -20, 100, 300), -40);
    assert_eq!(auto_scroll(-10, 3, 100, 300), -6);
    assert_eq!(auto_scroll(-10, -3, 100, 300), -15);
    assert_eq!(auto_scroll(-10, 100, 100, 300), 0);
    assert_eq!(auto_scroll(0, -1000, 100, 300), -200);
    assert_eq!(auto_scroll(i64::MIN, i64::MIN, 100, 300), -200);
    assert_eq!(auto_scroll(0, 0, 100, 80), 20);
}

#[test]
fn disabled_axis_keeps_offset() {
    assert_eq!(scroll_axis(ScrollMode::Disabled, -33, -100, 10, 100, 300), -33);
    assert_eq!(scroll_axis(ScrollMode::Auto, -33, 2, 10, 100, 300), -30);
}

#[test]
fn disabled_axis_aligns_child() {
    let mode = ScrollViewerMode { horizontal: ScrollMode::Disabled, vertical: ScrollMode::Disabled };
    let mut l = dirty_layout();
    let (size, available) = begin(&mut l, mode);
    assert_eq!(available, size);
    let child = ContentChild {
        size: Some(Size { width: 40, height: 30 }),
        horizontal_alignment: Alignment::End,
        vertical_alignment: Alignment::Center,
        margin: Thickness { left: 1, top: 2, right: 5, bottom: 3 },
    };
    let p = l.arrange_content(size, mode, Point { x: 0, y: 0 }, Point { x: 9, y: 9 }, child);
    assert_eq!(p.bounds, Rectangle { x: 55, y: 35, width: 40, height: 30 });
    assert_eq!(p.offset, Point { x: 0, y: 0 });
}

#[test]
fn child_without_layout_keeps_last_size() {
    let mode = ScrollViewerMode { horizontal: ScrollMode::Auto, vertical: ScrollMode::Disabled };
    let mut l = dirty_layout();
    l.old_child_size = Size { width: 250, height: 20 };
    let (size, _) = begin(&mut l, mode);
    let mut child = content(0, 0);
    child.size = None;
    let p = l.arrange_content(size, mode, Point { x: 0, y: 0 }, Point { x: -10, y: 0 }, child);
    assert_eq!(p.bounds, Rectangle { x: -15, y: 0, width: 250, height: 20 });
}

#[test]
fn stretch_fills_offer_less_margins() {
    assert_eq!(Alignment::Stretch.align_measure(200, 10, 15, 25), 160);
    assert_eq!(Alignment::Stretch.align_measure(20, 10, 15, 25), 0);
    assert_eq!(Alignment::Start.align_measure(200, 10, 15, 25), 10);
    assert_eq!(Alignment::Center.align_position(100, 41, 0, 0), 29);
    assert_eq!(Alignment::Center.align_position(100, 141, 0, 0), -21);
    assert_eq!(Alignment::Start.align_position(100, 41, 7, 0), 7);
    assert_eq!(Constraint { width: 0, height: 9 }.perform(Size { width: 4, height: 4 }), Size { width: 4, height: 9 });
}

#[test]
fn fresh_layout_is_dirty_and_empty() {
    let l = ScrollLayout::default();
    assert_eq!(l.desired_size, DirtySize { width: 0, height: 0, dirty: true });
    assert_eq!(l.arranged_size, Size { width: 0, height: 0 });
    assert_eq!(l.old_child_size, Size { width: 0, height: 0 });
    assert_eq!(l.old_offset, Point { x: 0, y: 0 });
    assert_eq!(l.old_alignment, (Alignment::Stretch, Alignment::Stretch));
}

#[test]
fn offsets_out_of_machine_range_are_reported() {
    let custom = ScrollViewerMode { horizontal: ScrollMode::Custom, vertical: ScrollMode::Disabled };
    let auto = ScrollViewerMode { horizontal: ScrollMode::Auto, vertical: ScrollMode::Disabled };
    let l = ScrollLayout::new();
    let size = Size { width: 100, height: 100 };
    let far = Point { x: i64::MIN, y: 0 };
    assert!(!l.placement_in_range(size, custom, far, content(300, 50)));
    assert!(l.placement_in_range(size, custom, far, content(80, 50)));
    assert!(l.placement_in_range(size, auto, far, content(300, 50)));
    assert!(l.placement_in_range(size, custom, Point { x: -5, y: 0 }, content(300, 50)));
}

#[test]
fn alignment_change_back_marks_dirty() {
    let mut l = ScrollLayout::new();
    let first = l.measure(Visibility::Visible, Alignment::Center, Alignment::Stretch, viewport(), &vec![], Point { x: 0, y: 0 });
    assert!(first.dirty);
    assert_eq!(l.old_alignment, (Alignment::Center, Alignment::Stretch));
    l.arrange_end();
    let same = l.measure(Visibility::Visible, Alignment::Center, Alignment::Stretch, viewport(), &vec![false], Point { x: 0, y: 0 });
    assert!(!same.dirty);
    let back = l.measure(Visibility::Visible, Alignment::Stretch, Alignment::Stretch, viewport(), &vec![false], Point { x: 0, y: 0 });
    assert!(back.dirty);
    assert_eq!(l.old_alignment, (Alignment::Stretch, Alignment::Stretch));
}

#[test]
fn clean_arrange_returns_last_arranged_size() {
    let mode = ScrollViewerMode { horizontal: ScrollMode::Disabled, vertical: ScrollMode::Disabled };
    let none = Constraint { width: 0, height: 0 };
    let parent = Size { width: 200, height: 200 };
    let mut l = ScrollLayout::new();
    let d = l.measure(Visibility::Visible, Alignment::Stretch, Alignment::Stretch, none, &vec![], Point { x: 0, y: 0 });
    assert_eq!(d, DirtySize { width: 0, height: 0, dirty: true });
    let step = l.arrange_begin(Visibility::Visible, parent, Alignment::Stretch, Alignment::Stretch, no_margin(), none, mode);
    assert_eq!(step, ArrangeStep::Content { size: parent, available: parent });
    l.arrange_content(parent, mode, Point { x: 0, y: 0 }, Point { x: 0, y: 0 }, content(50, 50));
    l.arrange_end();
    let again = l.arrange_begin(Visibility::Visible, parent, Alignment::Stretch, Alignment::Stretch, no_margin(), none, mode);
    assert_eq!(again, ArrangeStep::Done(parent));
    let collapsed = l.arrange_begin(Visibility::Collapsed, parent, Alignment::Stretch, Alignment::Stretch, no_margin(), none, mode);
    assert_eq!(collapsed, ArrangeStep::Done(Size { width: 0, height: 0 }));
    assert_eq!(l.arranged_size, Size { width: 0, height: 0 });
}
