//! Geometry for the view layer: sizes, points, rectangles and the
//! touch-sample stream, all over the fixed-point encoding of [`crate::fixed`].

pub mod edge_inset;
pub mod position;
pub mod rect;
pub mod size;
pub mod touch_point;
pub mod view_size;

pub use edge_inset::EdgeInset;
pub use position::Position;
pub use rect::Rect;
pub use size::Size;
pub use touch_point::TouchPoint;
pub use view_size::ViewSize;
