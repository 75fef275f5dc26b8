//! The scroll container's layout: a dirty-gated measure pass and an arrange
//! pass that turns drag input into a persisted scroll offset.
//!
//! The container holds one content child: the scroll offset and the last
//! content extent are single values, so a second child would share them and
//! each would disturb the other's scrolling. The recursion into children goes
//! through the caller, which owns the tree and the other strategies: it
//! measures the children and hands their dirty flags to
//! [`ScrollLayout::measure`], and arranges the content child with the extent
//! that [`ScrollLayout::arrange_begin`] offers before calling
//! [`ScrollLayout::arrange_content`] and [`ScrollLayout::arrange_end`].
use vstd::prelude::*;
use crate::geometry::{
    align_position_spec, align_measure_spec, constrain, scrolls, Alignment, Constraint, DirtySize, Point,
    Rectangle, ScrollMode, ScrollViewerMode, Size, Thickness, Visibility, UNBOUNDED,
};

verus! {

/// `x` limited to `hi` from above, then to `lo` from below.
pub open spec fn clamp_offset(x: int, lo: int, hi: int) -> int {
    let m = if x < hi {
        x
    } else {
        hi
    };
    if m > lo {
        m
    } else {
        lo
    }
}

/// A drag delta amplified by one half, rounded down.
pub open spec fn amplified(d: int) -> int {
    (3 * d) / 2
}

/// Offset of an axis in `Auto` mode: the prior offset moved by the amplified
/// drag, kept so that content of extent `content` cannot be dragged past
/// either edge of a viewport of extent `view`.
pub open spec fn auto_offset(offset: int, delta: int, view: int, content: int) -> int {
    clamp_offset(offset + amplified(delta), view - content, 0)
}

/// Offset of an axis in `Custom` mode: follows a change of the content's
/// extent from `old_content`, never past the leading edge; zero when the
/// content fits.
pub open spec fn custom_offset(offset: int, old_content: int, view: int, content: int) -> int {
    if content > view {
        let moved = offset + old_content - content;
        if moved < 0 {
            moved
        } else {
            0
        }
    } else {
        0
    }
}

/// Offset of an axis after one arrange, by its mode.
pub open spec fn next_offset(
    mode: ScrollMode,
    offset: int,
    delta: int,
    old_content: int,
    view: int,
    content: int,
) -> int {
    match mode {
        ScrollMode::Disabled => offset,
        ScrollMode::Auto => auto_offset(offset, delta, view, content),
        ScrollMode::Custom => custom_offset(offset, old_content, view, content),
    }
}

/// The new offset of an axis is a machine integer.
pub open spec fn offset_fits(mode: ScrollMode, offset: int, old_content: int, view: int, content: int) -> bool {
    mode == ScrollMode::Custom ==> custom_offset(offset, old_content, view, content) >= i64::MIN
}

/// Position of scrolled content on an axis: at the leading edge when it fits
/// the viewport, else at the offset.
pub open spec fn scroll_position(offset: int, view: int, content: int) -> int {
    if content <= view {
        0
    } else {
        offset
    }
}

/// Whether the new offset of an axis is a machine integer.
fn custom_in_range(mode: ScrollMode, offset: i64, old_content: u32, view: u32, content: u32) -> (r: bool)
    ensures
        r == offset_fits(mode, offset as int, old_content as int, view as int, content as int),
{
    if mode != ScrollMode::Custom || content <= view {
        return true;
    }
    let moved: i128 = offset as i128 + old_content as i128 - content as i128;
    moved >= i64::MIN as i128
}

/// `Auto` mode on one axis.
pub fn auto_scroll(offset: i64, delta: i64, view: u32, content: u32) -> (r: i64)
    ensures
        r as int == auto_offset(offset as int, delta as int, view as int, content as int),
{
    let t: i128 = 3 * (delta as i128);
    let half: i128 = if t >= 0 {
        t / 2
    } else {
        let h: i128 = (-t + 1) / 2;
        assert(t / 2 == -h) by (nonlinear_arith)
            requires t < 0, h == (-t + 1) / 2;
        -h
    };
    let x: i128 = offset as i128 + half;
    let m: i128 = if x < 0 { x } else { 0 };
    let lo: i64 = view as i64 - content as i64;
    if m > lo as i128 {
        m as i64
    } else {
        lo
    }
}

/// `Custom` mode on one axis.
pub fn custom_scroll(offset: i64, old_content: u32, view: u32, content: u32) -> (r: i64)
    requires
        offset_fits(ScrollMode::Custom, offset as int, old_content as int, view as int, content as int),
    ensures
        r as int == custom_offset(offset as int, old_content as int, view as int, content as int),
{
    if content > view {
        let moved: i128 = offset as i128 + old_content as i128 - content as i128;
        if moved < 0 {
            moved as i64
        } else {
            0
        }
    } else {
        0
    }
}

/// One axis's offset after an arrange, by its mode.
pub fn scroll_axis(mode: ScrollMode, offset: i64, delta: i64, old_content: u32, view: u32, content: u32) -> (r: i64)
    requires
        offset_fits(mode, offset as int, old_content as int, view as int, content as int),
    ensures
        r as int == next_offset(mode, offset as int, delta as int, old_content as int, view as int, content as int),
{
    match mode {
        ScrollMode::Disabled => offset,
        ScrollMode::Auto => auto_scroll(offset, delta, view, content),
        ScrollMode::Custom => custom_scroll(offset, old_content, view, content),
    }
}

/// What the arrange pass of a container does after its first step.
#[derive(Clone, Copy, Debug, PartialEq, Eq, Structural)]
pub enum ArrangeStep {
    /// Nothing to lay out: the container takes this size and writes nothing.
    Done(Size),
    /// The container takes `size`; its content child is arranged within
    /// `available` and then placed with [`ScrollLayout::arrange_content`].
    Content { size: Size, available: Size },
}

/// What the arrange pass knows of the content child.
#[derive(Clone, Copy, Debug, PartialEq, Eq, Structural)]
pub struct ContentChild {
    /// The size its own layout returned, or `None` where it has no layout
    /// of its own (the last content size is kept then).
    pub size: Option<Size>,
    pub horizontal_alignment: Alignment,
    pub vertical_alignment: Alignment,
    pub margin: Thickness,
}

/// Where the content child goes, and the scroll offset to persist.
#[derive(Clone, Copy, Debug, PartialEq, Eq, Structural)]
pub struct ContentPlacement {
    pub bounds: Rectangle,
    pub offset: Point,
}

/// The extent offered to content on an axis: unbounded where it scrolls.
pub open spec fn offered(mode: ScrollMode, extent: u32) -> u32 {
    if scrolls(mode) {
        UNBOUNDED
    } else {
        extent
    }
}

/// Leading position of the content child on one axis of a viewport of
/// extent `view`: scrolled axes go by the offset, the others by the child's
/// own alignment and margin.
pub open spec fn content_position(
    mode: ScrollMode,
    offset: int,
    view: u32,
    content: u32,
    alignment: Alignment,
    margin_start: u32,
    margin_end: u32,
) -> int {
    if scrolls(mode) {
        scroll_position(offset, view as int, content as int)
    } else {
        align_position_spec(alignment, view as int, content as int, margin_start as int, margin_end as int)
    }
}

/// Position of the content child on one axis.
fn place_axis(
    mode: ScrollMode,
    offset: i64,
    view: u32,
    content: u32,
    alignment: Alignment,
    margin_start: u32,
    margin_end: u32,
) -> (r: i64)
    ensures
        r as int == content_position(mode, offset as int, view, content, alignment, margin_start, margin_end),
{
    if mode.is_scrolling() {
        if content <= view {
            0
        } else {
            offset
        }
    } else {
        alignment.align_position(view, content, margin_start, margin_end)
    }
}

/// Whether any measured child reported a stale size.
pub open spec fn any_dirty(children_dirty: Seq<bool>) -> bool {
    exists|i: int| 0 <= i < children_dirty.len() && children_dirty[i]
}

/// Layout state of one scroll container, kept from frame to frame.
#[derive(Clone, Copy, Debug)]
pub struct ScrollLayout {
    /// Extent of the content child at the last arrange.
    pub old_child_size: Size,
    /// The container's own desired size, and whether the next arrange must
    /// recompute.
    pub desired_size: DirtySize,
    /// The scroll offset seen at the last measure.
    pub old_offset: Point,
    /// Horizontal and vertical alignment seen at the last measure; the next
    /// measure marks the layout dirty when either differs.
    pub old_alignment: (Alignment, Alignment),
    /// The size the last full arrange took, returned while the layout stays
    /// clean.
    pub arranged_size: Size,
}

impl ScrollLayout {
    /// The state of a fresh container: all sizes and offsets zero, the
    /// default (`Stretch`) alignment on both axes, and dirty, so that the
    /// first arrange lays out the content even when nothing has changed
    /// yet.
    pub open spec fn initial() -> ScrollLayout {
        ScrollLayout {
            old_child_size: Size { width: 0, height: 0 },
            desired_size: DirtySize { width: 0, height: 0, dirty: true },
            old_offset: Point { x: 0, y: 0 },
            old_alignment: (Alignment::Stretch, Alignment::Stretch),
            arranged_size: Size { width: 0, height: 0 },
        }
    }

    pub fn new() -> (r: ScrollLayout)
        ensures
            r == ScrollLayout::initial(),
    {
        ScrollLayout {
            old_child_size: Size { width: 0, height: 0 },
            desired_size: DirtySize { width: 0, height: 0, dirty: true },
            old_offset: Point { x: 0, y: 0 },
            old_alignment: (Alignment::Stretch, Alignment::Stretch),
            arranged_size: Size { width: 0, height: 0 },
        }
    }

    /// The state after a measure pass. A collapsed container only zeroes its
    /// desired size. Otherwise a positive constraint fixes the desired extent
    /// of its axis, and the layout turns dirty when the alignment differs
    /// from the cached one, a child reported dirty, or the scroll offset
    /// moved; the alignment and the offset read are cached.
    pub open spec fn measured(
        self,
        visibility: Visibility,
        horizontal_alignment: Alignment,
        vertical_alignment: Alignment,
        constraint: Constraint,
        children_dirty: Seq<bool>,
        scroll_offset: Point,
    ) -> ScrollLayout {
        if visibility == Visibility::Collapsed {
            ScrollLayout {
                desired_size: DirtySize { width: 0, height: 0, dirty: self.desired_size.dirty },
                ..self
            }
        } else {
            let dirty = self.desired_size.dirty || horizontal_alignment != self.old_alignment.0
                || vertical_alignment != self.old_alignment.1 || any_dirty(children_dirty)
                || scroll_offset != self.old_offset;
            ScrollLayout {
                desired_size: DirtySize {
                    width: constrain(constraint.width, self.desired_size.width),
                    height: constrain(constraint.height, self.desired_size.height),
                    dirty,
                },
                old_offset: scroll_offset,
                old_alignment: (horizontal_alignment, vertical_alignment),
                ..self
            }
        }
    }

    /// Measures the container. `children_dirty` holds, in tree order, the
    /// dirty flag that each child with a layout of its own reported from its
    /// measure; a collapsed container measures no child (see
    /// [`ScrollLayout::visits_children`]) and passes none.
    pub fn measure(
        &mut self,
        visibility: Visibility,
        horizontal_alignment: Alignment,
        vertical_alignment: Alignment,
        constraint: Constraint,
        children_dirty: &Vec<bool>,
        scroll_offset: Point,
    ) -> (r: DirtySize)
        ensures
            *final(self) == old(self).measured(
                visibility,
                horizontal_alignment,
                vertical_alignment,
                constraint,
                children_dirty@,
                scroll_offset,
            ),
            r == final(self).desired_size,
    {
        if visibility == Visibility::Collapsed {
            self.desired_size.width = 0;
            self.desired_size.height = 0;
            return self.desired_size;
        }
        if horizontal_alignment != self.old_alignment.0 || vertical_alignment != self.old_alignment.1 {
            self.desired_size.dirty = true;
        }
        self.old_alignment = (horizontal_alignment, vertical_alignment);
        if constraint.width > 0 {
            self.desired_size.width = constraint.width;
        }
        if constraint.height > 0 {
            self.desired_size.height = constraint.height;
        }
        let ghost before = self.desired_size.dirty;
        let mut i: usize = 0;
        while i < children_dirty.len()
            invariant
                0 <= i <= children_dirty@.len(),
                self.desired_size.dirty == (before || exists|j: int| 0 <= j < i && children_dirty@[j]),
                self.old_offset == old(self).old_offset,
                self.old_alignment == (horizontal_alignment, vertical_alignment),
                self.old_child_size == old(self).old_child_size,
                self.arranged_size == old(self).arranged_size,
                self.desired_size.width == constrain(constraint.width, old(self).desired_size.width),
                self.desired_size.height == constrain(constraint.height, old(self).desired_size.height),
            decreases children_dirty@.len() - i,
        {
            self.desired_size.dirty = children_dirty[i] || self.desired_size.dirty;
            i = i + 1;
        }
        if scroll_offset != self.old_offset {
            self.old_offset = scroll_offset;
            self.desired_size.dirty = true;
        }
        self.desired_size
    }

    /// The first step of arrange, given the size the parent offers: a
    /// collapsed container takes (0, 0), a clean one the size its last full
    /// arrange took; a dirty one aligns its desired size within the offer, applies
    /// the constraint, and offers its content that size on each axis that
    /// does not scroll, an unbounded extent on each that does.
    pub open spec fn arrange_plan(
        self,
        visibility: Visibility,
        parent_size: Size,
        horizontal_alignment: Alignment,
        vertical_alignment: Alignment,
        margin: Thickness,
        constraint: Constraint,
        mode: ScrollViewerMode,
    ) -> ArrangeStep {
        if visibility == Visibility::Collapsed {
            ArrangeStep::Done(Size { width: 0, height: 0 })
        } else if !self.desired_size.dirty {
            ArrangeStep::Done(self.arranged_size)
        } else {
            let w = align_measure_spec(
                horizontal_alignment,
                parent_size.width as int,
                self.desired_size.width as int,
                margin.left as int,
                margin.right as int,
            );
            let h = align_measure_spec(
                vertical_alignment,
                parent_size.height as int,
                self.desired_size.height as int,
                margin.top as int,
                margin.bottom as int,
            );
            let size = Size {
                width: constrain(constraint.width, w as u32),
                height: constrain(constraint.height, h as u32),
            };
            ArrangeStep::Content {
                size,
                available: Size {
                    width: offered(mode.horizontal, size.width),
                    height: offered(mode.vertical, size.height),
                },
            }
        }
    }

    /// The state after the first step of arrange, which returned `step`: a
    /// collapsed container zeroes its desired and arranged sizes, a dirty one
    /// keeps the size it takes, a clean one changes nothing.
    pub open spec fn plan_state(self, visibility: Visibility, step: ArrangeStep) -> ScrollLayout {
        if visibility == Visibility::Collapsed {
            ScrollLayout {
                desired_size: DirtySize { width: 0, height: 0, dirty: self.desired_size.dirty },
                arranged_size: Size { width: 0, height: 0 },
                ..self
            }
        } else {
            match step {
                ArrangeStep::Content { size, .. } => ScrollLayout { arranged_size: size, ..self },
                ArrangeStep::Done(_) => self,
            }
        }
    }

    /// First step of arrange. On `Content` the caller arranges the content
    /// child within `available`, then calls
    /// [`ScrollLayout::arrange_content`] and [`ScrollLayout::arrange_end`];
    /// on `Done` it arranges nothing and writes nothing.
    pub fn arrange_begin(
        &mut self,
        visibility: Visibility,
        parent_size: Size,
        horizontal_alignment: Alignment,
        vertical_alignment: Alignment,
        margin: Thickness,
        constraint: Constraint,
        mode: ScrollViewerMode,
    ) -> (r: ArrangeStep)
        ensures
            r == old(self).arrange_plan(
                visibility,
                parent_size,
                horizontal_alignment,
                vertical_alignment,
                margin,
                constraint,
                mode,
            ),
            *final(self) == old(self).plan_state(visibility, r),
    {
        if visibility == Visibility::Collapsed {
            self.desired_size.width = 0;
            self.desired_size.height = 0;
            self.arranged_size = Size { width: 0, height: 0 };
            return ArrangeStep::Done(Size { width: 0, height: 0 });
        }
        if !self.desired_size.dirty {
            return ArrangeStep::Done(self.arranged_size);
        }
        let aligned = Size {
            width: horizontal_alignment.align_measure(
                parent_size.width,
                self.desired_size.width,
                margin.left,
                margin.right,
            ),
            height: vertical_alignment.align_measure(
                parent_size.height,
                self.desired_size.height,
                margin.top,
                margin.bottom,
            ),
        };
        let size = constraint.perform(aligned);
        let available = Size {
            width: if mode.horizontal.is_scrolling() { UNBOUNDED } else { size.width },
            height: if mode.vertical.is_scrolling() { UNBOUNDED } else { size.height },
        };
        self.arranged_size = size;
        ArrangeStep::Content { size, available }
    }

    /// The extent of the content child: what its layout returned, else the
    /// last one.
    pub open spec fn content_size(self, child: ContentChild) -> Size {
        match child.size {
            Some(s) => s,
            None => self.old_child_size,
        }
    }

    /// The new offsets are machine integers.
    pub open spec fn placement_fits(
        self,
        size: Size,
        mode: ScrollViewerMode,
        scroll_offset: Point,
        child: ContentChild,
    ) -> bool {
        let c = self.content_size(child);
        &&& offset_fits(
            mode.horizontal,
            scroll_offset.x as int,
            self.old_child_size.width as int,
            size.width as int,
            c.width as int,
        )
        &&& offset_fits(
            mode.vertical,
            scroll_offset.y as int,
            self.old_child_size.height as int,
            size.height as int,
            c.height as int,
        )
    }

    /// Whether [`ScrollLayout::arrange_content`] can take these inputs: the
    /// new offsets must be machine integers.
    pub fn placement_in_range(&self, size: Size, mode: ScrollViewerMode, scroll_offset: Point, child: ContentChild) -> (r: bool)
        ensures
            r == self.placement_fits(size, mode, scroll_offset, child),
    {
        let c = match child.size {
            Some(s) => s,
            None => self.old_child_size,
        };
        custom_in_range(mode.horizontal, scroll_offset.x, self.old_child_size.width, size.width, c.width)
            && custom_in_range(mode.vertical, scroll_offset.y, self.old_child_size.height, size.height, c.height)
    }

    /// The content child's box in a viewport of `size`, and the new scroll
    /// offset, from the persisted `scroll_offset` and this frame's `delta`:
    /// the box has the content's extent; each axis's offset follows its
    /// mode.
    pub open spec fn placement(
        self,
        size: Size,
        mode: ScrollViewerMode,
        scroll_offset: Point,
        delta: Point,
        child: ContentChild,
    ) -> ContentPlacement {
        let c = self.content_size(child);
        let x = next_offset(
            mode.horizontal,
            scroll_offset.x as int,
            delta.x as int,
            self.old_child_size.width as int,
            size.width as int,
            c.width as int,
        );
        let y = next_offset(
            mode.vertical,
            scroll_offset.y as int,
            delta.y as int,
            self.old_child_size.height as int,
            size.height as int,
            c.height as int,
        );
        ContentPlacement {
            bounds: Rectangle {
                x: content_position(
                    mode.horizontal,
                    x,
                    size.width,
                    c.width,
                    child.horizontal_alignment,
                    child.margin.left,
                    child.margin.right,
                ) as i64,
                y: content_position(
                    mode.vertical,
                    y,
                    size.height,
                    c.height,
                    child.vertical_alignment,
                    child.margin.top,
                    child.margin.bottom,
                ) as i64,
                width: c.width,
                height: c.height,
            },
            offset: Point { x: x as i64, y: y as i64 },
        }
    }

    /// Second step of arrange: places the content child in the viewport
    /// `size` that [`ScrollLayout::arrange_begin`] returned, and remembers
    /// the content's extent for the next frame. The caller writes the
    /// returned box to the child and the returned offset to the container's
    /// scroll offset.
    pub fn arrange_content(
        &mut self,
        size: Size,
        mode: ScrollViewerMode,
        scroll_offset: Point,
        delta: Point,
        child: ContentChild,
    ) -> (r: ContentPlacement)
        requires
            old(self).placement_fits(size, mode, scroll_offset, child),
        ensures
            r == old(self).placement(size, mode, scroll_offset, delta, child),
            *final(self) == (ScrollLayout { old_child_size: old(self).content_size(child), ..*old(self) }),
    {
        let c = match child.size {
            Some(s) => s,
            None => self.old_child_size,
        };
        let x = scroll_axis(mode.horizontal, scroll_offset.x, delta.x, self.old_child_size.width, size.width, c.width);
        let y = scroll_axis(mode.vertical, scroll_offset.y, delta.y, self.old_child_size.height, size.height, c.height);
        let bounds = Rectangle {
            x: place_axis(
                mode.horizontal,
                x,
                size.width,
                c.width,
                child.horizontal_alignment,
                child.margin.left,
                child.margin.right,
            ),
            y: place_axis(
                mode.vertical,
                y,
                size.height,
                c.height,
                child.vertical_alignment,
                child.margin.top,
                child.margin.bottom,
            ),
            width: c.width,
            height: c.height,
        };
        self.old_child_size = c;
        ContentPlacement { bounds, offset: Point { x, y } }
    }

    /// The state after the last step of arrange: clean.
    pub open spec fn cleaned(self) -> ScrollLayout {
        ScrollLayout { desired_size: DirtySize { dirty: false, ..self.desired_size }, ..self }
    }

    /// Last step of arrange: the layout is clean until the next measure
    /// finds a change.
    pub fn arrange_end(&mut self)
        ensures
            *final(self) == old(self).cleaned(),
    {
        self.desired_size.dirty = false;
    }

    /// Whether a container of this visibility lays out its children.
    pub fn visits_children(visibility: Visibility) -> (r: bool)
        ensures
            r == (visibility != Visibility::Collapsed),
    {
        visibility != Visibility::Collapsed
    }
}

impl Default for ScrollLayout {
    fn default() -> (r: ScrollLayout)
        ensures
            r == ScrollLayout::initial(),
    {
        ScrollLayout::new()
    }
}

/// A collapsed container takes no space and lays out no child: its measure
/// leaves a desired size of (0, 0) whatever its children reported, and its
/// arrange takes (0, 0) and stops there.
pub proof fn collapsed_takes_no_space(
    s: ScrollLayout,
    horizontal_alignment: Alignment,
    vertical_alignment: Alignment,
    constraint: Constraint,
    children_dirty: Seq<bool>,
    other_children_dirty: Seq<bool>,
    scroll_offset: Point,
    parent_size: Size,
    margin: Thickness,
    mode: ScrollViewerMode,
)
    ensures
        ({
            let m = s.measured(
                Visibility::Collapsed,
                horizontal_alignment,
                vertical_alignment,
                constraint,
                children_dirty,
                scroll_offset,
            );
            &&& m.desired_size.width == 0
            &&& m.desired_size.height == 0
            &&& m == s.measured(
                Visibility::Collapsed,
                horizontal_alignment,
                vertical_alignment,
                constraint,
                other_children_dirty,
                scroll_offset,
            )
        }),
        s.arrange_plan(
            Visibility::Collapsed,
            parent_size,
            horizontal_alignment,
            vertical_alignment,
            margin,
            constraint,
            mode,
        ) == ArrangeStep::Done(Size { width: 0, height: 0 }),
{
}

/// The state after one whole arrange with the given inputs.
pub open spec fn arranged_once(
    s: ScrollLayout,
    visibility: Visibility,
    parent_size: Size,
    horizontal_alignment: Alignment,
    vertical_alignment: Alignment,
    margin: Thickness,
    constraint: Constraint,
    mode: ScrollViewerMode,
    child: ContentChild,
) -> ScrollLayout {
    let step = s.arrange_plan(visibility, parent_size, horizontal_alignment, vertical_alignment, margin, constraint, mode);
    let s0 = s.plan_state(visibility, step);
    match step {
        ArrangeStep::Done(_) => s0,
        ArrangeStep::Content { .. } => ScrollLayout { old_child_size: s0.content_size(child), ..s0 }.cleaned(),
    }
}

/// The size a container takes at the first step of arrange.
pub open spec fn taken_size(step: ArrangeStep) -> Size {
    match step {
        ArrangeStep::Done(size) => size,
        ArrangeStep::Content { size, .. } => size,
    }
}

/// Arranging twice with nothing changed in between: the second arrange
/// stops at its first step, writes nothing, leaves the state as it was, and
/// returns the size that the first one took.
pub proof fn arrange_twice_is_stable(
    s: ScrollLayout,
    visibility: Visibility,
    parent_size: Size,
    horizontal_alignment: Alignment,
    vertical_alignment: Alignment,
    margin: Thickness,
    constraint: Constraint,
    mode: ScrollViewerMode,
    child: ContentChild,
)
    ensures
        ({
            let first = s.arrange_plan(
                visibility,
                parent_size,
                horizontal_alignment,
                vertical_alignment,
                margin,
                constraint,
                mode,
            );
            let s1 = arranged_once(
                s,
                visibility,
                parent_size,
                horizontal_alignment,
                vertical_alignment,
                margin,
                constraint,
                mode,
                child,
            );
            let second = s1.arrange_plan(
                visibility,
                parent_size,
                horizontal_alignment,
                vertical_alignment,
                margin,
                constraint,
                mode,
            );
            &&& second == ArrangeStep::Done(taken_size(first))
            &&& s1.plan_state(visibility, second) == s1
        }),
{
}

/// A dirty child makes its container dirty: when a container that is not
/// collapsed measures a child that reported dirty, its own measure reports
/// dirty, and so on up through every enclosing container.
pub proof fn dirty_child_marks_container(
    s: ScrollLayout,
    visibility: Visibility,
    horizontal_alignment: Alignment,
    vertical_alignment: Alignment,
    constraint: Constraint,
    children_dirty: Seq<bool>,
    scroll_offset: Point,
    i: int,
)
    requires
        visibility != Visibility::Collapsed,
        0 <= i < children_dirty.len(),
        children_dirty[i],
    ensures
        s.measured(
            visibility,
            horizontal_alignment,
            vertical_alignment,
            constraint,
            children_dirty,
            scroll_offset,
        ).desired_size.dirty,
{
}

/// A measure remembers the alignment it read, and a change of alignment
/// since the last measure marks the layout dirty, in either direction.
pub proof fn alignment_change_marks_dirty(
    s: ScrollLayout,
    visibility: Visibility,
    horizontal_alignment: Alignment,
    vertical_alignment: Alignment,
    constraint: Constraint,
    children_dirty: Seq<bool>,
    scroll_offset: Point,
)
    requires
        visibility != Visibility::Collapsed,
    ensures
        ({
            let m = s.measured(
                visibility,
                horizontal_alignment,
                vertical_alignment,
                constraint,
                children_dirty,
                scroll_offset,
            );
            &&& m.old_alignment == (horizontal_alignment, vertical_alignment)
            &&& (horizontal_alignment, vertical_alignment) != s.old_alignment ==> m.desired_size.dirty
        }),
{
}

/// Only a change of the scroll offset marks a clean layout dirty when its
/// alignment and children are unchanged: offsets are whole pixels, so a
/// change smaller than the least representable step is no change at all.
pub proof fn unchanged_offset_keeps_clean(
    s: ScrollLayout,
    visibility: Visibility,
    constraint: Constraint,
    children_dirty: Seq<bool>,
    scroll_offset: Point,
)
    requires
        !s.desired_size.dirty,
        !any_dirty(children_dirty),
    ensures
        s.measured(
            visibility,
            s.old_alignment.0,
            s.old_alignment.1,
            constraint,
            children_dirty,
            scroll_offset,
        ).desired_size.dirty == (visibility != Visibility::Collapsed && scroll_offset != s.old_offset),
        !s.measured(
            visibility,
            s.old_alignment.0,
            s.old_alignment.1,
            constraint,
            children_dirty,
            s.old_offset,
        ).desired_size.dirty,
{
}

/// In `Custom` mode content stays within reach: content of extent `content`
/// that fits a viewport of extent `view` gets offset 0; content that
/// overflows gets an offset of at most 0, and of at least `view - content`
/// when the prior offset was at least `view - old_content`, the bound for
/// the content's last extent.
pub proof fn custom_offset_in_range(offset: int, delta: int, old_content: int, view: int, content: int)
    ensures
        ({
            let r = next_offset(ScrollMode::Custom, offset, delta, old_content, view, content);
            &&& content <= view ==> r == 0
            &&& content > view ==> r <= 0
            &&& content > view && offset >= view - old_content ==> view - content <= r
        }),
{
}

/// In `Auto` mode the new offset is the prior offset moved by one and a
/// half times the drag (rounded down), clamped to `[view - content, 0]`:
/// it lies in that range when the content overflows, and is the moved
/// offset itself when that already lies in the range.
pub proof fn auto_offset_is_clamped_drag(offset: int, delta: int, old_content: int, view: int, content: int)
    ensures
        ({
            let r = next_offset(ScrollMode::Auto, offset, delta, old_content, view, content);
            let moved = offset + (3 * delta) / 2;
            &&& r == clamp_offset(moved, view - content, 0)
            &&& view <= content ==> view - content <= r <= 0
            &&& view - content <= moved <= 0 ==> r == moved
        }),
{
}

} // verus!
