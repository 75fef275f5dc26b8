//! Component values read and written by the layout, with the per-axis
//! alignment and constraint arithmetic.
use vstd::prelude::*;

verus! {

/// The extent offered to content on an axis that scrolls: large enough that
/// the content reports its full natural size.
pub const UNBOUNDED: u32 = 4294967295;

/// Display state of an entity.
#[derive(Clone, Copy, Debug, PartialEq, Eq, Structural)]
pub enum Visibility {
    Visible,
    Hidden,
    /// Takes no space: measured and arranged as (0, 0), children skipped.
    Collapsed,
}

/// Placement policy of an entity on one axis.
#[derive(Clone, Copy, Debug, PartialEq, Eq, Structural)]
pub enum Alignment {
    Start,
    Center,
    End,
    Stretch,
}

impl Default for Alignment {
    fn default() -> (r: Self)
        ensures
            r == Alignment::Stretch,
    {
        Alignment::Stretch
    }
}

/// Size the entity takes on an axis, given the extent `available` offered
/// by the parent and its own desired extent `measure`.
pub open spec fn align_measure_spec(
    a: Alignment,
    available: int,
    measure: int,
    margin_start: int,
    margin_end: int,
) -> int {
    match a {
        Alignment::Stretch => {
            let rest = available - margin_start - margin_end;
            if rest > 0 {
                rest
            } else {
                0
            }
        },
        _ => measure,
    }
}

/// Leading position of an entity of extent `measure` on an axis of extent
/// `available`.
pub open spec fn align_position_spec(
    a: Alignment,
    available: int,
    measure: int,
    margin_start: int,
    margin_end: int,
) -> int {
    match a {
        Alignment::End => available - measure - margin_end,
        Alignment::Center => (available - measure) / 2,
        _ => margin_start,
    }
}

impl Alignment {
    /// The extent taken on an axis: `Stretch` fills what is offered less the
    /// margins (never below zero), the others keep the desired extent.
    pub fn align_measure(&self, available: u32, measure: u32, margin_start: u32, margin_end: u32) -> (r: u32)
        ensures
            r as int == align_measure_spec(*self, available as int, measure as int, margin_start as int, margin_end as int),
    {
        match self {
            Alignment::Stretch => {
                let rest: i64 = available as i64 - margin_start as i64 - margin_end as i64;
                if rest > 0 {
                    rest as u32
                } else {
                    0
                }
            },
            _ => measure,
        }
    }

    /// The leading position on an axis: `Start` and `Stretch` sit after the
    /// leading margin, `End` before the trailing margin, `Center` in the
    /// middle (rounded down).
    pub fn align_position(&self, available: u32, measure: u32, margin_start: u32, margin_end: u32) -> (r: i64)
        ensures
            r as int == align_position_spec(*self, available as int, measure as int, margin_start as int, margin_end as int),
    {
        match self {
            Alignment::End => available as i64 - measure as i64 - margin_end as i64,
            Alignment::Center => {
                if available >= measure {
                    ((available - measure) / 2) as i64
                } else {
                    let k: u32 = measure - available;
                    let h: i64 = (k as i64 + 1) / 2;
                    assert((available - measure) / 2 == -h) by (nonlinear_arith)
                        requires k == measure - available, h == (k + 1) / 2, k > 0;
                    -h
                }
            },
            _ => margin_start as i64,
        }
    }
}

/// Margin around an entity.
#[derive(Clone, Copy, Debug, PartialEq, Eq, Structural)]
pub struct Thickness {
    pub left: u32,
    pub top: u32,
    pub right: u32,
    pub bottom: u32,
}

/// Explicit size override: a positive width or height replaces the measured
/// extent on that axis, zero leaves the axis unset.
#[derive(Clone, Copy, Debug, PartialEq, Eq, Structural)]
pub struct Constraint {
    pub width: u32,
    pub height: u32,
}

/// The extent an axis takes once the constraint is applied to `measured`.
pub open spec fn constrain(fixed: u32, measured: u32) -> u32 {
    if fixed > 0 {
        fixed
    } else {
        measured
    }
}

impl Constraint {
    /// Applies the constraint to a size, one axis at a time.
    pub fn perform(&self, size: Size) -> (r: Size)
        ensures
            r.width == constrain(self.width, size.width),
            r.height == constrain(self.height, size.height),
    {
        Size {
            width: if self.width > 0 { self.width } else { size.width },
            height: if self.height > 0 { self.height } else { size.height },
        }
    }
}

/// A width and a height.
#[derive(Clone, Copy, Debug, PartialEq, Eq, Structural)]
pub struct Size {
    pub width: u32,
    pub height: u32,
}

/// A signed 2D pair: a scroll offset or a drag delta.
#[derive(Clone, Copy, Debug, PartialEq, Eq, Structural)]
pub struct Point {
    pub x: i64,
    pub y: i64,
}

/// The placed box of an entity.
#[derive(Clone, Copy, Debug, PartialEq, Eq, Structural)]
pub struct Rectangle {
    pub x: i64,
    pub y: i64,
    pub width: u32,
    pub height: u32,
}

/// A cached desired size and whether it is stale.
#[derive(Clone, Copy, Debug, PartialEq, Eq, Structural)]
pub struct DirtySize {
    pub width: u32,
    pub height: u32,
    pub dirty: bool,
}

impl DirtySize {
    pub fn size(&self) -> (r: Size)
        ensures
            r == (Size { width: self.width, height: self.height }),
    {
        Size { width: self.width, height: self.height }
    }
}

/// Scrolling policy of one axis.
#[derive(Clone, Copy, Debug, PartialEq, Eq, Structural)]
pub enum ScrollMode {
    /// The axis is never offset.
    Disabled,
    /// The offset follows the drag delta, clamped to the content.
    Auto,
    /// The offset is driven from outside and kept within the content.
    Custom,
}

/// Whether content on an axis in this mode is scrolled rather than aligned.
pub open spec fn scrolls(m: ScrollMode) -> bool {
    m != ScrollMode::Disabled
}

impl ScrollMode {
    pub fn is_scrolling(&self) -> (r: bool)
        ensures
            r == scrolls(*self),
    {
        !matches!(self, ScrollMode::Disabled)
    }
}

/// Scrolling policy of both axes.
#[derive(Clone, Copy, Debug, PartialEq, Eq, Structural)]
pub struct ScrollViewerMode {
    pub horizontal: ScrollMode,
    pub vertical: ScrollMode,
}

} // verus!
