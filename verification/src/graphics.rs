//! Plain graphics data carried between the caller and the engine model:
//! two-dimensional vectors, the video descriptor, and pixel formats.
//!
//! The native engine works in floating-point units; this model carries
//! positions and scales as integer units so that every transform
//! computation stays within verified arithmetic.  The platform layer
//! converts at the boundary.

use vstd::prelude::*;

verus! {

/// A two-dimensional vector in integer units.
#[derive(Clone, Copy, Debug, PartialEq, Eq, Structural)]
pub struct Vec2 {
    pub x: i64,
    pub y: i64,
}

impl Vec2 {
    /// Builds a vector from its components.
    pub fn new(x: i64, y: i64) -> (r: Vec2)
        ensures
            r == (Vec2 { x, y }),
    {
        Vec2 { x, y }
    }
}

/// The graphics backend the engine renders with.  The backend is chosen at
/// first video initialization and cannot change afterwards.
#[derive(Clone, Copy, Debug, PartialEq, Eq, Structural)]
pub enum ObsGraphicsModule {
    /// The OpenGL renderer.
    OpenGL,
    /// The Direct3D 11 renderer.
    Direct3D11,
}

/// The caller-supplied video descriptor: resolution, frame rate and the
/// graphics backend.
#[derive(Clone, Copy, Debug, PartialEq, Eq, Structural)]
pub struct ObsVideoInfo {
    pub graphics_module: ObsGraphicsModule,
    pub base_width: u32,
    pub base_height: u32,
    pub output_width: u32,
    pub output_height: u32,
    pub fps_num: u32,
    pub fps_den: u32,
}

impl ObsVideoInfo {
    /// A descriptor with the given base and output resolution at the given
    /// frame rate, rendered with OpenGL.
    pub fn new(width: u32, height: u32, fps_num: u32, fps_den: u32) -> (r: ObsVideoInfo)
        ensures
            r == (ObsVideoInfo {
                graphics_module: ObsGraphicsModule::OpenGL,
                base_width: width,
                base_height: height,
                output_width: width,
                output_height: height,
                fps_num,
                fps_den,
            }),
    {
        ObsVideoInfo {
            graphics_module: ObsGraphicsModule::OpenGL,
            base_width: width,
            base_height: height,
            output_width: width,
            output_height: height,
            fps_num,
            fps_den,
        }
    }
}

/// Color format of a display's backbuffer.
#[derive(Clone, Copy, Debug, PartialEq, Eq, Structural)]
pub enum GsColorFormat {
    BGRA,
    RGBA,
    RGBA16F,
    RGBA32F,
}

/// Depth/stencil format of a display.
#[derive(Clone, Copy, Debug, PartialEq, Eq, Structural)]
pub enum GsZstencilFormat {
    ZSNone,
    Z16,
    Z24S8,
    Z32F,
}

/// Alignment flag: centered.
pub const OBS_ALIGN_CENTER: u32 = 0;

/// Alignment flag: pinned to the left edge.
pub const OBS_ALIGN_LEFT: u32 = 1;

/// Alignment flag: pinned to the right edge.
pub const OBS_ALIGN_RIGHT: u32 = 2;

/// Alignment flag: pinned to the top edge.
pub const OBS_ALIGN_TOP: u32 = 4;

/// Alignment flag: pinned to the bottom edge.
pub const OBS_ALIGN_BOTTOM: u32 = 8;

} // verus!
