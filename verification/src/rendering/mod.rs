//! What the renderer draws with: the frame, the system palette, viewports
//! and palette lookups.

pub mod frame;
pub mod palette;
pub mod rect;
pub mod render_util;
