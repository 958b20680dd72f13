//! Verified core of a Mandelbulb ray-marching viewer: the render-request
//! state machine, the layout of the rendered image, the compute-dispatch
//! arithmetic, and the text preview.

pub mod compute;
pub mod frame;
pub mod preview;
pub mod state;

pub use compute::{buffer_size, workgroup_counts, GPUVars, WORKGROUP_SIZE};
pub use frame::{
    blank_pixels, paint_rays, screen_coords, RayOutput, MAX_ITERATIONS, RENDER_HEIGHT,
    RENDER_WIDTH,
};
pub use preview::{ascii_frame, ascii_glyph, PREVIEW_HEIGHT, PREVIEW_WIDTH};
pub use state::{AppAction, AppEvent, MyAppState};
