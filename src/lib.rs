//! Measure/arrange layout for a scrollable container.
//!
//! All lengths are whole pixels: extents are `u32`, and signed positions,
//! offsets and drag deltas are `i64`.
pub mod geometry;
pub mod scroll;

pub use geometry::{
    Alignment, Constraint, DirtySize, Point, Rectangle, ScrollMode, ScrollViewerMode, Size,
    Thickness, Visibility, UNBOUNDED,
};
pub use scroll::{ArrangeStep, ContentChild, ContentPlacement, ScrollLayout};
