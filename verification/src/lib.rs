//! Verified core of a 2D instanced-shape rendering toolkit.
//!
//! The crate holds the algorithmic heart of the renderer: exact-arithmetic
//! pan/zoom view transforms over three coordinate systems, bookkeeping for
//! GPU instance buffers with monotone capacity growth, byte-exact shape
//! record serialization, and a composable layer/drawable protocol that
//! turns shape batches into ordered draw-command lists.  Device handling,
//! windowing and frame submission are left to an unverified host that
//! consumes the plans and commands this crate produces.

pub mod circle;
pub mod color;
pub mod gpu_data;
pub mod grid;
pub mod hairline;
pub mod layer;
pub mod line;
pub mod rat;
pub mod rectangle;
pub mod zoom;

pub use circle::{Circle, CirclesLayer};
pub use color::Color;
pub use grid::GridLayer;
pub use hairline::{Hairline, HairlinesLayer, HairlinesLayerDrawable, Orientation};
pub use layer::{Drawable, Layer};
pub use line::{Line, LinesLayer};
pub use rectangle::{Rectangle, RectanglesLayer};
